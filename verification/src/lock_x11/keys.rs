//! Map the digit keys 1 to 4 (main row or keypad) to the choice indices 0 to 3.
use vstd::prelude::*;

verus! {

/// The keysym of the digit `1` on the main row.
pub const XK_1: u32 = 0x0031;

/// The keysym of `1` on the keypad.
pub const XK_KP_1: u32 = 0xffb1;

/// The choice that a key name selects: "1" to "4" and "KP_1" to "KP_4" select 0 to 3.
pub open spec fn choice_for_name(name: Seq<char>) -> Option<u8> {
    if name == seq!['1'] || name == seq!['K', 'P', '_', '1'] {
        Some(0)
    } else if name == seq!['2'] || name == seq!['K', 'P', '_', '2'] {
        Some(1)
    } else if name == seq!['3'] || name == seq!['K', 'P', '_', '3'] {
        Some(2)
    } else if name == seq!['4'] || name == seq!['K', 'P', '_', '4'] {
        Some(3)
    } else {
        None
    }
}

/// The choice for a key name.
pub fn choice_index_from_name(name: &str) -> (r: Option<u8>)
    ensures
        r == choice_for_name(name@),
{
    let n = name.unicode_len();
    if n == 1 {
        let c = name.get_char(0);
        let r = digit_choice(c);
        assert(name@ =~= seq![c]);
        proof {
            assert(seq![c] != seq!['K', 'P', '_', '1']);
        }
        return r;
    }
    if n == 4 && name.get_char(0) == 'K' && name.get_char(1) == 'P' && name.get_char(2) == '_' {
        let c = name.get_char(3);
        let r = digit_choice(c);
        assert(name@ =~= seq!['K', 'P', '_', c]);
        return r;
    }
    proof {
        if name@.len() == 4 {
            assert(!(name@[0] == 'K' && name@[1] == 'P' && name@[2] == '_'));
            assert(name@ != seq!['K', 'P', '_', '1']);
            assert(name@ != seq!['K', 'P', '_', '2']);
            assert(name@ != seq!['K', 'P', '_', '3']);
            assert(name@ != seq!['K', 'P', '_', '4']);
        }
        assert(name@.len() != 1 ==> name@ != seq!['1'] && name@ != seq!['2'] && name@ != seq!['3']
            && name@ != seq!['4']);
    }
    None
}

fn digit_choice(c: char) -> (r: Option<u8>)
    ensures
        c == '1' ==> r == Some(0u8),
        c == '2' ==> r == Some(1u8),
        c == '3' ==> r == Some(2u8),
        c == '4' ==> r == Some(3u8),
        !(c == '1' || c == '2' || c == '3' || c == '4') ==> r is None,
{
    match c {
        '1' => Some(0),
        '2' => Some(1),
        '3' => Some(2),
        '4' => Some(3),
        _ => None,
    }
}

/// The choice for a keysym: `1` to `4` on the main row or on the keypad.
pub open spec fn choice_for_keysym(keysym: u32) -> Option<u8> {
    if XK_1 <= keysym <= XK_1 + 3 {
        Some((keysym - XK_1) as u8)
    } else if XK_KP_1 <= keysym <= XK_KP_1 + 3 {
        Some((keysym - XK_KP_1) as u8)
    } else {
        None
    }
}

pub fn choice_from_keysym(keysym: u32) -> (r: Option<u8>)
    ensures
        r == choice_for_keysym(keysym),
{
    if XK_1 <= keysym && keysym <= XK_1 + 3 {
        Some((keysym - XK_1) as u8)
    } else if XK_KP_1 <= keysym && keysym <= XK_KP_1 + 3 {
        Some((keysym - XK_KP_1) as u8)
    } else {
        None
    }
}

/// Every key that selects a choice selects one of the four.
pub proof fn law_keys_select_one_of_four(name: Seq<char>, keysym: u32)
    ensures
        choice_for_name(name) matches Some(c) ==> c <= 3,
        choice_for_keysym(keysym) matches Some(c) ==> c <= 3,
{
}

/// The digit keys 1 to 4, on the main row (keysyms 0x31 to 0x34) and on the keypad (0xffb1 to
/// 0xffb4), select the choice one below their digit: key 1 the first, key 4 the fourth. No
/// other keysym selects a choice. The key names "1" to "4" and "KP_1" to "KP_4" select alike.
pub proof fn law_digit_key_selects_its_choice(k: u32, keysym: u32)
    ensures
        k <= 3 ==> choice_for_keysym((0x31 + k) as u32) == Some(k as u8),
        k <= 3 ==> choice_for_keysym((0xffb1 + k) as u32) == Some(k as u8),
        !(0x31 <= keysym <= 0x34 || 0xffb1 <= keysym <= 0xffb4) ==> choice_for_keysym(keysym) is None,
        k <= 3 ==> choice_for_name(seq![(0x31 + k) as char]) == Some(k as u8),
        k <= 3 ==> choice_for_name(seq!['K', 'P', '_', (0x31 + k) as char]) == Some(k as u8),
{
    if k <= 3 {
        let d = (0x31 + k) as char;
        let name = seq![d];
        if k == 0 {
            assert(name =~= seq!['1']);
        } else if k == 1 {
            assert(name =~= seq!['2'] && name[0] != seq!['1'][0]);
        } else if k == 2 {
            assert(name =~= seq!['3'] && name[0] != seq!['1'][0] && name[0] != seq!['2'][0]);
        } else {
            assert(name =~= seq!['4'] && name[0] != seq!['1'][0] && name[0] != seq!['2'][0]
                && name[0] != seq!['3'][0]);
        }
    }
}

/// The keysym that `xkeysym::keysym` finds for a keycode in a keyboard mapping (column, first
/// keycode, keysyms per keycode, the mapping's keysyms).
pub uninterp spec fn spec_keysym_lookup(keycode: u8, column: u8, min_keycode: u8, per: u8, keysyms: Seq<u32>) -> Option<u32>;

/// The name that `xkeysym::Keysym::name` gives a keysym.
pub uninterp spec fn spec_keysym_name(keysym: u32) -> Option<Seq<char>>;

/// Where a keycode's keysyms begin in the mapping.
pub open spec fn keycode_start(keycode: u8, min_keycode: u8, per: u8) -> int {
    (keycode - min_keycode) * per
}

/// Whether a keycode's row lies inside the mapping (`xkeysym::keysym` slices it out and panics
/// otherwise).
pub open spec fn keycode_in_mapping(keycode: u8, min_keycode: u8, per: u8, len: nat) -> bool {
    min_keycode <= keycode && keycode_start(keycode, min_keycode, per) + per <= len
}

/// Calls `xkeysym::keysym`. In the source, column 0 of a row whose second keysym is not
/// `NoSymbol` (zero) is the row's first keysym; otherwise the result comes from the crate's
/// case tables, which are not described here.
#[verifier::external_body]
fn keysym_lookup(keycode: u8, column: u8, min_keycode: u8, per: u8, keysyms: &[u32]) -> (r: Option<u32>)
    requires
        keycode_in_mapping(keycode, min_keycode, per, keysyms@.len()),
    ensures
        r == spec_keysym_lookup(keycode, column, min_keycode, per, keysyms@),
        column == 0 && per >= 2 && keysyms@[keycode_start(keycode, min_keycode, per) + 1] != 0 ==> r == Some(
            keysyms@[keycode_start(keycode, min_keycode, per)],
        ),
{
    let found = xkeysym::keysym(
        xkeysym::KeyCode::new(u32::from(keycode)),
        column,
        xkeysym::KeyCode::new(u32::from(min_keycode)),
        per,
        keysyms,
    );
    match found {
        Some(k) => Some(k.raw()),
        None => None,
    }
}

/// Calls `xkeysym::Keysym::name` on a raw keysym.
#[verifier::external_body]
fn keysym_name(keysym: u32) -> (r: Option<&'static str>)
    ensures
        (match r {
            Some(n) => spec_keysym_name(keysym) == Some(n@),
            None => spec_keysym_name(keysym) is None,
        }),
{
    xkeysym::Keysym::new(keysym).name()
}

/// The choice for a key given its keysym and the keysym's name: by the keysym, else by the name.
pub open spec fn choice_for_key(keysym: u32, name: Option<Seq<char>>) -> Option<u8> {
    match choice_for_keysym(keysym) {
        Some(c) => Some(c),
        None => match name {
            Some(n) => choice_for_name(n),
            None => None,
        },
    }
}

/// The choice for a keysym and its name.
pub fn choice_from_keysym_and_name(keysym: u32, name: Option<&str>) -> (r: Option<u8>)
    ensures
        r == choice_for_key(
            keysym,
            match name {
                Some(n) => Some(n@),
                None => None,
            },
        ),
{
    match choice_from_keysym(keysym) {
        Some(c) => Some(c),
        None => match name {
            Some(n) => choice_index_from_name(n),
            None => None,
        },
    }
}

/// The keysym of a keycode in the keyboard mapping's first column, as `xkeysym::keysym` finds it.
pub fn keysym_of_keycode(keycode: u8, min_keycode: u8, per: u8, keysyms: &[u32]) -> (r: Option<u32>)
    requires
        keycode_in_mapping(keycode, min_keycode, per, keysyms@.len()),
    ensures
        r == spec_keysym_lookup(keycode, 0, min_keycode, per, keysyms@),
        per >= 2 && keysyms@[keycode_start(keycode, min_keycode, per) + 1] != 0 ==> r == Some(
            keysyms@[keycode_start(keycode, min_keycode, per)],
        ),
{
    keysym_lookup(keycode, 0, min_keycode, per, keysyms)
}

/// The choice that a pressed keycode selects, through the keyboard mapping's first column.
pub fn choice_from_keycode(keycode: u8, min_keycode: u8, per: u8, keysyms: &[u32]) -> (r: Option<u8>)
    requires
        keycode_in_mapping(keycode, min_keycode, per, keysyms@.len()),
    ensures
        (match spec_keysym_lookup(keycode, 0, min_keycode, per, keysyms@) {
            Some(sym) => r == choice_for_key(sym, spec_keysym_name(sym)),
            None => r is None,
        }),
{
    let sym = match keysym_of_keycode(keycode, min_keycode, per, keysyms) {
        Some(s) => s,
        None => return None,
    };
    let name = keysym_name(sym);
    choice_from_keysym_and_name(sym, name)
}

} // verus!
