use vstd::prelude::*;
use vstd::string::*;

verus! {

/// A physical key or mouse button, by its virtual-key code.
pub type VirtualKeyCode = i32;

/// Compares two strings character by character.
pub fn same_text(a: &str, b: &str) -> (r: bool)
    ensures
        r == (a@ == b@),
{
    let n = a.unicode_len();
    if n != b.unicode_len() {
        return false;
    }
    let mut i: usize = 0;
    while i < n
        invariant
            n == a@.len(),
            n == b@.len(),
            i <= n,
            forall|j: int| 0 <= j < i ==> a@[j] == b@[j],
        decreases n - i,
    {
        if a.get_char(i) != b.get_char(i) {
            return false;
        }
        i += 1;
    }
    assert(a@ =~= b@);
    true
}

/// The virtual-key code named by an upper-case key name: letters and digits
/// stand for themselves, other keys are spelled `VK_...`.
pub open spec fn keycode_of(name: Seq<char>) -> Option<VirtualKeyCode> {
    if name == "VK_LBUTTON"@ {
        Some(0x01)
    } else if name == "VK_RBUTTON"@ {
        Some(0x02)
    } else if name == "VK_CANCEL"@ {
        Some(0x03)
    } else if name == "VK_MBUTTON"@ {
        Some(0x04)
    } else if name == "VK_XBUTTON1"@ {
        Some(0x05)
    } else if name == "VK_XBUTTON2"@ {
        Some(0x06)
    } else if name == "VK_BACK"@ {
        Some(0x08)
    } else if name == "VK_TAB"@ {
        Some(0x09)
    } else if name == "VK_CLEAR"@ {
        Some(0x0C)
    } else if name == "VK_RETURN"@ {
        Some(0x0D)
    } else if name == "VK_SHIFT"@ {
        Some(0x10)
    } else if name == "VK_CONTROL"@ {
        Some(0x11)
    } else if name == "VK_MENU"@ {
        Some(0x12)
    } else if name == "VK_PAUSE"@ {
        Some(0x13)
    } else if name == "VK_CAPITAL"@ {
        Some(0x14)
    } else if name == "VK_KANA"@ {
        Some(0x15)
    } else if name == "VK_HANGUL"@ {
        Some(0x15)
    } else if name == "VK_IME_ON"@ {
        Some(0x16)
    } else if name == "VK_JUNJA"@ {
        Some(0x17)
    } else if name == "VK_FINAL"@ {
        Some(0x18)
    } else if name == "VK_HANJA"@ {
        Some(0x19)
    } else if name == "VK_KANJI"@ {
        Some(0x19)
    } else if name == "VK_IME_OFF"@ {
        Some(0x1A)
    } else if name == "VK_ESCAPE"@ {
        Some(0x1B)
    } else if name == "VK_CONVERT"@ {
        Some(0x1C)
    } else if name == "VK_NONCONVERT"@ {
        Some(0x1D)
    } else if name == "VK_ACCEPT"@ {
        Some(0x1E)
    } else if name == "VK_MODECHANGE"@ {
        Some(0x1F)
    } else if name == "VK_SPACE"@ {
        Some(0x20)
    } else if name == "VK_PRIOR"@ {
        Some(0x21)
    } else if name == "VK_NEXT"@ {
        Some(0x22)
    } else if name == "VK_END"@ {
        Some(0x23)
    } else if name == "VK_HOME"@ {
        Some(0x24)
    } else if name == "VK_LEFT"@ {
        Some(0x25)
    } else if name == "VK_UP"@ {
        Some(0x26)
    } else if name == "VK_RIGHT"@ {
        Some(0x27)
    } else if name == "VK_DOWN"@ {
        Some(0x28)
    } else if name == "VK_SELECT"@ {
        Some(0x29)
    } else if name == "VK_PRINT"@ {
        Some(0x2A)
    } else if name == "VK_EXECUTE"@ {
        Some(0x2B)
    } else if name == "VK_SNAPSHOT"@ {
        Some(0x2C)
    } else if name == "VK_INSERT"@ {
        Some(0x2D)
    } else if name == "VK_DELETE"@ {
        Some(0x2E)
    } else if name == "VK_HELP"@ {
        Some(0x2F)
    } else if name == "0"@ {
        Some(0x30)
    } else if name == "1"@ {
        Some(0x31)
    } else if name == "2"@ {
        Some(0x32)
    } else if name == "3"@ {
        Some(0x33)
    } else if name == "4"@ {
        Some(0x34)
    } else if name == "5"@ {
        Some(0x35)
    } else if name == "6"@ {
        Some(0x36)
    } else if name == "7"@ {
        Some(0x37)
    } else if name == "8"@ {
        Some(0x38)
    } else if name == "9"@ {
        Some(0x39)
    } else if name == "A"@ {
        Some(0x41)
    } else if name == "B"@ {
        Some(0x42)
    } else if name == "C"@ {
        Some(0x43)
    } else if name == "D"@ {
        Some(0x44)
    } else if name == "E"@ {
        Some(0x45)
    } else if name == "F"@ {
        Some(0x46)
    } else if name == "G"@ {
        Some(0x47)
    } else if name == "H"@ {
        Some(0x48)
    } else if name == "I"@ {
        Some(0x49)
    } else if name == "J"@ {
        Some(0x4A)
    } else if name == "K"@ {
        Some(0x4B)
    } else if name == "L"@ {
        Some(0x4C)
    } else if name == "M"@ {
        Some(0x4D)
    } else if name == "N"@ {
        Some(0x4E)
    } else if name == "O"@ {
        Some(0x4F)
    } else if name == "P"@ {
        Some(0x50)
    } else if name == "Q"@ {
        Some(0x51)
    } else if name == "R"@ {
        Some(0x52)
    } else if name == "S"@ {
        Some(0x53)
    } else if name == "T"@ {
        Some(0x54)
    } else if name == "U"@ {
        Some(0x55)
    } else if name == "V"@ {
        Some(0x56)
    } else if name == "W"@ {
        Some(0x57)
    } else if name == "X"@ {
        Some(0x58)
    } else if name == "Y"@ {
        Some(0x59)
    } else if name == "Z"@ {
        Some(0x5A)
    } else if name == "VK_LWIN"@ {
        Some(0x5B)
    } else if name == "VK_RWIN"@ {
        Some(0x5C)
    } else if name == "VK_APPS"@ {
        Some(0x5D)
    } else if name == "VK_SLEEP"@ {
        Some(0x5F)
    } else if name == "VK_NUMPAD0"@ {
        Some(0x60)
    } else if name == "VK_NUMPAD1"@ {
        Some(0x61)
    } else if name == "VK_NUMPAD2"@ {
        Some(0x62)
    } else if name == "VK_NUMPAD3"@ {
        Some(0x63)
    } else if name == "VK_NUMPAD4"@ {
        Some(0x64)
    } else if name == "VK_NUMPAD5"@ {
        Some(0x65)
    } else if name == "VK_NUMPAD6"@ {
        Some(0x66)
    } else if name == "VK_NUMPAD7"@ {
        Some(0x67)
    } else if name == "VK_NUMPAD8"@ {
        Some(0x68)
    } else if name == "VK_NUMPAD9"@ {
        Some(0x69)
    } else if name == "VK_MULTIPLY"@ {
        Some(0x6A)
    } else if name == "VK_ADD"@ {
        Some(0x6B)
    } else if name == "VK_SEPARATOR"@ {
        Some(0x6C)
    } else if name == "VK_SUBTRACT"@ {
        Some(0x6D)
    } else if name == "VK_DECIMAL"@ {
        Some(0x6E)
    } else if name == "VK_DIVIDE"@ {
        Some(0x6F)
    } else if name == "VK_F1"@ {
        Some(0x70)
    } else if name == "VK_F2"@ {
        Some(0x71)
    } else if name == "VK_F3"@ {
        Some(0x72)
    } else if name == "VK_F4"@ {
        Some(0x73)
    } else if name == "VK_F5"@ {
        Some(0x74)
    } else if name == "VK_F6"@ {
        Some(0x75)
    } else if name == "VK_F7"@ {
        Some(0x76)
    } else if name == "VK_F8"@ {
        Some(0x77)
    } else if name == "VK_F9"@ {
        Some(0x78)
    } else if name == "VK_F10"@ {
        Some(0x79)
    } else if name == "VK_F11"@ {
        Some(0x7A)
    } else if name == "VK_F12"@ {
        Some(0x7B)
    } else if name == "VK_F13"@ {
        Some(0x7C)
    } else if name == "VK_F14"@ {
        Some(0x7D)
    } else if name == "VK_F15"@ {
        Some(0x7E)
    } else if name == "VK_F16"@ {
        Some(0x7F)
    } else if name == "VK_F17"@ {
        Some(0x80)
    } else if name == "VK_F18"@ {
        Some(0x81)
    } else if name == "VK_F19"@ {
        Some(0x82)
    } else if name == "VK_F20"@ {
        Some(0x83)
    } else if name == "VK_F21"@ {
        Some(0x84)
    } else if name == "VK_F22"@ {
        Some(0x85)
    } else if name == "VK_F23"@ {
        Some(0x86)
    } else if name == "VK_F24"@ {
        Some(0x87)
    } else if name == "VK_NUMLOCK"@ {
        Some(0x90)
    } else if name == "VK_SCROLL"@ {
        Some(0x91)
    } else if name == "VK_LSHIFT"@ {
        Some(0xA0)
    } else if name == "VK_RSHIFT"@ {
        Some(0xA1)
    } else if name == "VK_LCONTROL"@ {
        Some(0xA2)
    } else if name == "VK_RCONTROL"@ {
        Some(0xA3)
    } else if name == "VK_LMENU"@ {
        Some(0xA4)
    } else if name == "VK_RMENU"@ {
        Some(0xA5)
    } else {
        None
    }
}

/// Looks up the virtual-key code of a key name (already trimmed and upper-cased).
pub fn get_virtual_keycode(key: &str) -> (r: Option<VirtualKeyCode>)
    ensures
        r == keycode_of(key@),
{
    if same_text(key, "VK_LBUTTON") {
        return Some(0x01);
    }
    if same_text(key, "VK_RBUTTON") {
        return Some(0x02);
    }
    if same_text(key, "VK_CANCEL") {
        return Some(0x03);
    }
    if same_text(key, "VK_MBUTTON") {
        return Some(0x04);
    }
    if same_text(key, "VK_XBUTTON1") {
        return Some(0x05);
    }
    if same_text(key, "VK_XBUTTON2") {
        return Some(0x06);
    }
    if same_text(key, "VK_BACK") {
        return Some(0x08);
    }
    if same_text(key, "VK_TAB") {
        return Some(0x09);
    }
    if same_text(key, "VK_CLEAR") {
        return Some(0x0C);
    }
    if same_text(key, "VK_RETURN") {
        return Some(0x0D);
    }
    if same_text(key, "VK_SHIFT") {
        return Some(0x10);
    }
    if same_text(key, "VK_CONTROL") {
        return Some(0x11);
    }
    if same_text(key, "VK_MENU") {
        return Some(0x12);
    }
    if same_text(key, "VK_PAUSE") {
        return Some(0x13);
    }
    if same_text(key, "VK_CAPITAL") {
        return Some(0x14);
    }
    if same_text(key, "VK_KANA") {
        return Some(0x15);
    }
    if same_text(key, "VK_HANGUL") {
        return Some(0x15);
    }
    if same_text(key, "VK_IME_ON") {
        return Some(0x16);
    }
    if same_text(key, "VK_JUNJA") {
        return Some(0x17);
    }
    if same_text(key, "VK_FINAL") {
        return Some(0x18);
    }
    if same_text(key, "VK_HANJA") {
        return Some(0x19);
    }
    if same_text(key, "VK_KANJI") {
        return Some(0x19);
    }
    if same_text(key, "VK_IME_OFF") {
        return Some(0x1A);
    }
    if same_text(key, "VK_ESCAPE") {
        return Some(0x1B);
    }
    if same_text(key, "VK_CONVERT") {
        return Some(0x1C);
    }
    if same_text(key, "VK_NONCONVERT") {
        return Some(0x1D);
    }
    if same_text(key, "VK_ACCEPT") {
        return Some(0x1E);
    }
    if same_text(key, "VK_MODECHANGE") {
        return Some(0x1F);
    }
    if same_text(key, "VK_SPACE") {
        return Some(0x20);
    }
    if same_text(key, "VK_PRIOR") {
        return Some(0x21);
    }
    if same_text(key, "VK_NEXT") {
        return Some(0x22);
    }
    if same_text(key, "VK_END") {
        return Some(0x23);
    }
    if same_text(key, "VK_HOME") {
        return Some(0x24);
    }
    if same_text(key, "VK_LEFT") {
        return Some(0x25);
    }
    if same_text(key, "VK_UP") {
        return Some(0x26);
    }
    if same_text(key, "VK_RIGHT") {
        return Some(0x27);
    }
    if same_text(key, "VK_DOWN") {
        return Some(0x28);
    }
    if same_text(key, "VK_SELECT") {
        return Some(0x29);
    }
    if same_text(key, "VK_PRINT") {
        return Some(0x2A);
    }
    if same_text(key, "VK_EXECUTE") {
        return Some(0x2B);
    }
    if same_text(key, "VK_SNAPSHOT") {
        return Some(0x2C);
    }
    if same_text(key, "VK_INSERT") {
        return Some(0x2D);
    }
    if same_text(key, "VK_DELETE") {
        return Some(0x2E);
    }
    if same_text(key, "VK_HELP") {
        return Some(0x2F);
    }
    if same_text(key, "0") {
        return Some(0x30);
    }
    if same_text(key, "1") {
        return Some(0x31);
    }
    if same_text(key, "2") {
        return Some(0x32);
    }
    if same_text(key, "3") {
        return Some(0x33);
    }
    if same_text(key, "4") {
        return Some(0x34);
    }
    if same_text(key, "5") {
        return Some(0x35);
    }
    if same_text(key, "6") {
        return Some(0x36);
    }
    if same_text(key, "7") {
        return Some(0x37);
    }
    if same_text(key, "8") {
        return Some(0x38);
    }
    if same_text(key, "9") {
        return Some(0x39);
    }
    if same_text(key, "A") {
        return Some(0x41);
    }
    if same_text(key, "B") {
        return Some(0x42);
    }
    if same_text(key, "C") {
        return Some(0x43);
    }
    if same_text(key, "D") {
        return Some(0x44);
    }
    if same_text(key, "E") {
        return Some(0x45);
    }
    if same_text(key, "F") {
        return Some(0x46);
    }
    if same_text(key, "G") {
        return Some(0x47);
    }
    if same_text(key, "H") {
        return Some(0x48);
    }
    if same_text(key, "I") {
        return Some(0x49);
    }
    if same_text(key, "J") {
        return Some(0x4A);
    }
    if same_text(key, "K") {
        return Some(0x4B);
    }
    if same_text(key, "L") {
        return Some(0x4C);
    }
    if same_text(key, "M") {
        return Some(0x4D);
    }
    if same_text(key, "N") {
        return Some(0x4E);
    }
    if same_text(key, "O") {
        return Some(0x4F);
    }
    if same_text(key, "P") {
        return Some(0x50);
    }
    if same_text(key, "Q") {
        return Some(0x51);
    }
    if same_text(key, "R") {
        return Some(0x52);
    }
    if same_text(key, "S") {
        return Some(0x53);
    }
    if same_text(key, "T") {
        return Some(0x54);
    }
    if same_text(key, "U") {
        return Some(0x55);
    }
    if same_text(key, "V") {
        return Some(0x56);
    }
    if same_text(key, "W") {
        return Some(0x57);
    }
    if same_text(key, "X") {
        return Some(0x58);
    }
    if same_text(key, "Y") {
        return Some(0x59);
    }
    if same_text(key, "Z") {
        return Some(0x5A);
    }
    if same_text(key, "VK_LWIN") {
        return Some(0x5B);
    }
    if same_text(key, "VK_RWIN") {
        return Some(0x5C);
    }
    if same_text(key, "VK_APPS") {
        return Some(0x5D);
    }
    if same_text(key, "VK_SLEEP") {
        return Some(0x5F);
    }
    if same_text(key, "VK_NUMPAD0") {
        return Some(0x60);
    }
    if same_text(key, "VK_NUMPAD1") {
        return Some(0x61);
    }
    if same_text(key, "VK_NUMPAD2") {
        return Some(0x62);
    }
    if same_text(key, "VK_NUMPAD3") {
        return Some(0x63);
    }
    if same_text(key, "VK_NUMPAD4") {
        return Some(0x64);
    }
    if same_text(key, "VK_NUMPAD5") {
        return Some(0x65);
    }
    if same_text(key, "VK_NUMPAD6") {
        return Some(0x66);
    }
    if same_text(key, "VK_NUMPAD7") {
        return Some(0x67);
    }
    if same_text(key, "VK_NUMPAD8") {
        return Some(0x68);
    }
    if same_text(key, "VK_NUMPAD9") {
        return Some(0x69);
    }
    if same_text(key, "VK_MULTIPLY") {
        return Some(0x6A);
    }
    if same_text(key, "VK_ADD") {
        return Some(0x6B);
    }
    if same_text(key, "VK_SEPARATOR") {
        return Some(0x6C);
    }
    if same_text(key, "VK_SUBTRACT") {
        return Some(0x6D);
    }
    if same_text(key, "VK_DECIMAL") {
        return Some(0x6E);
    }
    if same_text(key, "VK_DIVIDE") {
        return Some(0x6F);
    }
    if same_text(key, "VK_F1") {
        return Some(0x70);
    }
    if same_text(key, "VK_F2") {
        return Some(0x71);
    }
    if same_text(key, "VK_F3") {
        return Some(0x72);
    }
    if same_text(key, "VK_F4") {
        return Some(0x73);
    }
    if same_text(key, "VK_F5") {
        return Some(0x74);
    }
    if same_text(key, "VK_F6") {
        return Some(0x75);
    }
    if same_text(key, "VK_F7") {
        return Some(0x76);
    }
    if same_text(key, "VK_F8") {
        return Some(0x77);
    }
    if same_text(key, "VK_F9") {
        return Some(0x78);
    }
    if same_text(key, "VK_F10") {
        return Some(0x79);
    }
    if same_text(key, "VK_F11") {
        return Some(0x7A);
    }
    if same_text(key, "VK_F12") {
        return Some(0x7B);
    }
    if same_text(key, "VK_F13") {
        return Some(0x7C);
    }
    if same_text(key, "VK_F14") {
        return Some(0x7D);
    }
    if same_text(key, "VK_F15") {
        return Some(0x7E);
    }
    if same_text(key, "VK_F16") {
        return Some(0x7F);
    }
    if same_text(key, "VK_F17") {
        return Some(0x80);
    }
    if same_text(key, "VK_F18") {
        return Some(0x81);
    }
    if same_text(key, "VK_F19") {
        return Some(0x82);
    }
    if same_text(key, "VK_F20") {
        return Some(0x83);
    }
    if same_text(key, "VK_F21") {
        return Some(0x84);
    }
    if same_text(key, "VK_F22") {
        return Some(0x85);
    }
    if same_text(key, "VK_F23") {
        return Some(0x86);
    }
    if same_text(key, "VK_F24") {
        return Some(0x87);
    }
    if same_text(key, "VK_NUMLOCK") {
        return Some(0x90);
    }
    if same_text(key, "VK_SCROLL") {
        return Some(0x91);
    }
    if same_text(key, "VK_LSHIFT") {
        return Some(0xA0);
    }
    if same_text(key, "VK_RSHIFT") {
        return Some(0xA1);
    }
    if same_text(key, "VK_LCONTROL") {
        return Some(0xA2);
    }
    if same_text(key, "VK_RCONTROL") {
        return Some(0xA3);
    }
    if same_text(key, "VK_LMENU") {
        return Some(0xA4);
    }
    if same_text(key, "VK_RMENU") {
        return Some(0xA5);
    }
    None
}

/// Whether a key is down, from the state word that the operating system
/// reports for it: 1 where its high-order bit (the sign bit) is set, 0
/// otherwise.
pub fn key_pressed(key_state: i16) -> (r: u16)
    ensures
        r == if key_state < 0 {
            1u16
        } else {
            0u16
        },
{
    if key_state < 0 {
        1
    } else {
        0
    }
}

} // verus!
