use rand::Rng;
use std::collections::BTreeMap;
use vstd::laws_eq::obeys_eq;
use vstd::laws_eq::obeys_eq_spec_properties;
use vstd::prelude::*;
use vstd::std_specs::btree::key_obeys_cmp_spec;
use vstd::std_specs::cmp::PartialEqSpec;

verus! {

/// The index after `i`, back at the start past the end of `collection`.
pub fn next_with_wrap<T>(i: usize, collection: &Vec<T>) -> (next: usize)
    requires
        collection.len() > 0,
        i < usize::MAX,
    ensures
        next == (i + 1) % (collection.len() as int),
{
    (i + 1) % collection.len()
}

/// The index before `i`, at the end before the start of `collection`.
pub fn previous_with_wrap<T>(i: usize, collection: &Vec<T>) -> (previous: usize)
    requires
        collection.len() > 0,
        i + collection.len() <= usize::MAX,
    ensures
        previous == (i + collection.len() - 1) % (collection.len() as int),
{
    (i + collection.len() - 1) % collection.len()
}

/// A number drawn by `rand::thread_rng().gen_range(low..=high)`: some value of the
/// closed range, which may be different on every call. The range must not be empty,
/// on which `gen_range` panics.
#[verifier::external_body]
fn random_in_range(low: usize, high: usize) -> (drawn: usize)
    requires
        low <= high,
    ensures
        low <= drawn <= high,
{
    rand::thread_rng().gen_range(low..=high)
}

/// One throw of a six-sided die.
pub fn roll_dice() -> (roll: usize)
    ensures
        1 <= roll <= 6,
{
    random_in_range(1, 6)
}


/// Whether some item of `vec` equals a later one. The items are compared pair by pair, so
/// the answer rests on their `==` alone.
pub fn has_duplicates<T: Eq + std::hash::Hash>(vec: &Vec<T>) -> (found: bool)
    ensures
        T::obeys_eq_spec() ==> (found <==> exists|i: int, j: int|
            0 <= i < j < vec.len() && #[trigger] vec[i].eq_spec(&#[trigger] vec[j])),
{
    let mut j: usize = 0;
    while j < vec.len()
        invariant
            j <= vec.len(),
            T::obeys_eq_spec() ==> forall|a: int, b: int|
                0 <= a < b < j ==> !(#[trigger] vec[a].eq_spec(&#[trigger] vec[b])),
        decreases vec.len() - j,
    {
        let mut i: usize = 0;
        while i < j
            invariant
                i <= j,
                j < vec.len(),
                T::obeys_eq_spec() ==> forall|a: int|
                    0 <= a < i ==> !(#[trigger] vec[a].eq_spec(&vec[j as int])),
            decreases j - i,
        {
            if vec[i] == vec[j] {
                return true;
            }
            i += 1;
        }
        j += 1;
    }
    false
}

/// Two different keys of `map` have equal values.
pub open spec fn has_equal_values<T, U: PartialEq>(map: Map<T, U>) -> bool {
    exists|ka: T, kb: T|
        ka != kb && #[trigger] map.contains_key(ka) && #[trigger] map.contains_key(kb)
            && map[ka].eq_spec(&map[kb])
}

/// `keys` lists every key of `map` once.
pub open spec fn lists_keys<T, U>(map: Map<T, U>, keys: Seq<T>) -> bool {
    keys.to_set() == map.dom() && keys.no_duplicates()
}

/// Where the values under two of the listed keys are equal, two keys have equal values.
proof fn lemma_equal_values<T, U: PartialEq>(map: Map<T, U>, keys: Seq<T>, a: usize, b: int)
    requires
        lists_keys(map, keys),
        0 <= a < b < keys.len(),
        map[keys[a as int]].eq_spec(&map[keys[b]]),
    ensures
        has_equal_values(map),
{
    let ka = keys[a as int];
    let kb = keys[b];
    assert(keys.to_set().contains(ka));
    assert(keys.to_set().contains(kb));
    assert(map.contains_key(ka) && map.contains_key(kb) && ka != kb);
}

/// `values` are the values of `map`, one for each key.
pub open spec fn lists_values<T, U>(map: Map<T, U>, values: Seq<&U>) -> bool {
    exists|keys: Seq<T>|
        {
            &&& lists_keys(map, keys)
            &&& #[trigger] keys.len() == values.len()
            &&& forall|i: int| 0 <= i < keys.len() ==> *values[i] == map[keys[i]]
        }
}

/// Where none of the listed values of a map equals a later one, no two keys have equal
/// values.
proof fn lemma_distinct_values<T, U: PartialEq>(map: Map<T, U>, values: Seq<&U>)
    requires
        obeys_eq::<U>(),
        lists_values(map, values),
        forall|a: int, b: int|
            0 <= a < b < values.len() ==> !(#[trigger] values[a]).eq_spec(#[trigger] values[b]),
    ensures
        !has_equal_values(map),
{
    reveal(obeys_eq_spec_properties);
    if has_equal_values(map) {
        let keys = choose|keys: Seq<T>|
            {
                &&& lists_keys(map, keys)
                &&& #[trigger] keys.len() == values.len()
                &&& forall|i: int| 0 <= i < keys.len() ==> *values[i] == map[keys[i]]
            };
        let (ka, kb) = choose|ka: T, kb: T|
            ka != kb && #[trigger] map.contains_key(ka) && #[trigger] map.contains_key(kb)
                && map[ka].eq_spec(&map[kb]);
        assert(keys.to_set().contains(ka));
        assert(keys.to_set().contains(kb));
        let a = choose|a: int| 0 <= a < keys.len() && keys[a] == ka;
        let b = choose|b: int| 0 <= b < keys.len() && keys[b] == kb;
        if a < b {
            assert(!values[a].eq_spec(values[b]));
        } else {
            assert(!values[b].eq_spec(values[a]));
            assert(map[kb].eq_spec(&map[ka]));
        }
    }
}

/// Where a value equal to `value` stands in `seen`, if one does.
fn position_of<U: PartialEq>(seen: &Vec<&U>, value: &U) -> (at: Option<usize>)
    ensures
        U::obeys_eq_spec() ==> match at {
            Some(i) => i < seen.len() && seen[i as int].eq_spec(value),
            None => forall|a: int| 0 <= a < seen.len() ==> !(#[trigger] seen[a]).eq_spec(value),
        },
        at matches Some(i) ==> i < seen.len(),
{
    let mut i: usize = 0;
    while i < seen.len()
        invariant
            i <= seen.len(),
            U::obeys_eq_spec() ==> forall|a: int|
                0 <= a < i ==> !(#[trigger] seen[a]).eq_spec(value),
        decreases seen.len() - i,
    {
        if *seen[i] == *value {
            return Some(i);
        }
        i += 1;
    }
    None
}

/// Whether two different keys of `map` have equal values. The keys are of a type whose
/// order follows the laws of an order, as any map of this kind needs; the values are
/// compared pair by pair, and the answer is stated for values whose `==` is an
/// equivalence.
pub fn has_duplicate_values<T, U: Eq + std::hash::Hash>(map: &BTreeMap<T, U>) -> (found: bool)
    requires
        key_obeys_cmp_spec::<T>(),
    ensures
        obeys_eq::<U>() ==> found == has_equal_values(map@),
{
    let mut seen: Vec<&U> = Vec::new();
    for value in it: map.values()
        invariant
            seen.len() == it.index(),
            exists|keys: Seq<T>|
                {
                    &&& lists_keys(map@, keys)
                    &&& #[trigger] keys.len() == it.seq().len()
                    &&& forall|i: int| 0 <= i < keys.len() ==> *it.seq()[i] == map@[keys[i]]
                    &&& forall|i: int| 0 <= i < seen.len() ==> *seen[i] == map@[keys[i]]
                },
            obeys_eq::<U>() ==> forall|a: int, b: int|
                0 <= a < b < seen.len() ==> !(#[trigger] seen[a]).eq_spec(#[trigger] seen[b]),
    {
        if let Some(earlier) = position_of(&seen, value) {
            proof {
                if obeys_eq::<U>() {
                    let keys = choose|keys: Seq<T>|
                        {
                            &&& lists_keys(map@, keys)
                            &&& #[trigger] keys.len() == it.seq().len()
                            &&& forall|i: int|
                                0 <= i < keys.len() ==> *it.seq()[i] == map@[keys[i]]
                            &&& forall|i: int| 0 <= i < seen.len() ==> *seen[i] == map@[keys[i]]
                        };
                    lemma_equal_values(map@, keys, earlier, it.index());
                }
            }
            return true;
        }
        seen.push(value);
    }
    proof {
        if obeys_eq::<U>() {
            assert(lists_values(map@, seen@));
            lemma_distinct_values(map@, seen@);
        }
    }
    false
}

/// The value of a hexadecimal digit, in either case.
pub open spec fn hex_value(c: char) -> Option<int> {
    if c == '0' {
        Some(0)
    } else if c == '1' {
        Some(1)
    } else if c == '2' {
        Some(2)
    } else if c == '3' {
        Some(3)
    } else if c == '4' {
        Some(4)
    } else if c == '5' {
        Some(5)
    } else if c == '6' {
        Some(6)
    } else if c == '7' {
        Some(7)
    } else if c == '8' {
        Some(8)
    } else if c == '9' {
        Some(9)
    } else if c == 'a' || c == 'A' {
        Some(10)
    } else if c == 'b' || c == 'B' {
        Some(11)
    } else if c == 'c' || c == 'C' {
        Some(12)
    } else if c == 'd' || c == 'D' {
        Some(13)
    } else if c == 'e' || c == 'E' {
        Some(14)
    } else if c == 'f' || c == 'F' {
        Some(15)
    } else {
        None
    }
}

/// The number that two characters write in base sixteen: two digits, or a plus sign and
/// one digit.
pub open spec fn hex_pair(high: char, low: char) -> Option<int> {
    if high == '+' {
        hex_value(low)
    } else {
        match (hex_value(high), hex_value(low)) {
            (Some(h), Some(l)) => Some(16 * h + l),
            _ => None,
        }
    }
}

/// The text is a hash sign and six more bytes.
pub open spec fn is_color_code(hex: &str) -> bool {
    hex.len() == 7 && hex@.len() > 0 && hex@[0] == '#'
}

/// The text is a hash sign and six more characters, one byte each.
pub open spec fn is_plain_color_code(hex: &str) -> bool {
    is_color_code(hex) && hex.is_ascii() && hex@.len() == 7
}

/// The value of a hexadecimal digit, in either case.
fn hex_digit(c: char) -> (value: Option<u8>)
    ensures
        match value {
            Some(v) => hex_value(c) == Some(v as int),
            None => hex_value(c) is None,
        },
{
    if c == '0' {
        Some(0)
    } else if c == '1' {
        Some(1)
    } else if c == '2' {
        Some(2)
    } else if c == '3' {
        Some(3)
    } else if c == '4' {
        Some(4)
    } else if c == '5' {
        Some(5)
    } else if c == '6' {
        Some(6)
    } else if c == '7' {
        Some(7)
    } else if c == '8' {
        Some(8)
    } else if c == '9' {
        Some(9)
    } else if c == 'a' || c == 'A' {
        Some(10)
    } else if c == 'b' || c == 'B' {
        Some(11)
    } else if c == 'c' || c == 'C' {
        Some(12)
    } else if c == 'd' || c == 'D' {
        Some(13)
    } else if c == 'e' || c == 'E' {
        Some(14)
    } else if c == 'f' || c == 'F' {
        Some(15)
    } else {
        None
    }
}

/// The number that two characters write in base sixteen.
fn parse_hex_pair(high: char, low: char) -> (value: Option<u8>)
    ensures
        match value {
            Some(v) => hex_pair(high, low) == Some(v as int),
            None => hex_pair(high, low) is None,
        },
{
    if high == '+' {
        hex_digit(low)
    } else {
        match (hex_digit(high), hex_digit(low)) {
            (Some(h), Some(l)) => Some(16 * h + l),
            _ => None,
        }
    }
}

/// Reads a colour written as a hash sign and three numbers in base sixteen, for red,
/// green and blue. Each number is two digits, or a plus sign and one digit. A text of
/// another length or without the hash sign is no colour code; in a colour code anything
/// but these digits is an invalid digit.
pub fn hex_to_rgb(hex: &str) -> (rgb: Result<(u8, u8, u8), String>)
    ensures
        !is_color_code(hex) ==> (rgb matches Err(why) && why@ == "Invalid hex color code"@),
        is_color_code(hex) && !is_plain_color_code(hex) ==> (rgb matches Err(why) && why@
            == "invalid digit found in string"@),
        is_plain_color_code(hex) ==> ({
            let red = hex_pair(hex@[1], hex@[2]);
            let green = hex_pair(hex@[3], hex@[4]);
            let blue = hex_pair(hex@[5], hex@[6]);
            if red is Some && green is Some && blue is Some {
                rgb matches Ok(shades) && shades.0 == red->0 && shades.1 == green->0 && shades.2
                    == blue->0
            } else {
                rgb matches Err(why) && why@ == "invalid digit found in string"@
            }
        }),
{
    if hex.len() != 7 || hex.is_empty() || hex.get_char(0) != '#' {
        return Err(String::from_str("Invalid hex color code"));
    }
    if !hex.is_ascii() || hex.unicode_len() != 7 {
        return Err(String::from_str("invalid digit found in string"));
    }
    let r = parse_hex_pair(hex.get_char(1), hex.get_char(2));
    let g = parse_hex_pair(hex.get_char(3), hex.get_char(4));
    let b = parse_hex_pair(hex.get_char(5), hex.get_char(6));
    match (r, g, b) {
        (Some(r), Some(g), Some(b)) => Ok((r, g, b)),
        _ => Err(String::from_str("invalid digit found in string")),
    }
}


/// The character that writes the hexadecimal digit `v`, in capitals.
pub open spec fn hex_char(v: int) -> char {
    if v == 0 {
        '0'
    } else if v == 1 {
        '1'
    } else if v == 2 {
        '2'
    } else if v == 3 {
        '3'
    } else if v == 4 {
        '4'
    } else if v == 5 {
        '5'
    } else if v == 6 {
        '6'
    } else if v == 7 {
        '7'
    } else if v == 8 {
        '8'
    } else if v == 9 {
        '9'
    } else if v == 10 {
        'A'
    } else if v == 11 {
        'B'
    } else if v == 12 {
        'C'
    } else if v == 13 {
        'D'
    } else if v == 14 {
        'E'
    } else {
        'F'
    }
}

/// The colour code of three intensities: a hash sign and two hexadecimal digits each for
/// red, green and blue.
pub open spec fn color_code(r: u8, g: u8, b: u8) -> Seq<char> {
    seq![
        '#',
        hex_char(r as int / 16),
        hex_char(r as int % 16),
        hex_char(g as int / 16),
        hex_char(g as int % 16),
        hex_char(b as int / 16),
        hex_char(b as int % 16),
    ]
}

/// The one-character text of a hexadecimal digit.
fn hex_text(v: u8) -> (s: &'static str)
    requires
        v < 16,
    ensures
        s@ == seq![hex_char(v as int)],
{
    proof {
        reveal_strlit("0");
        reveal_strlit("1");
        reveal_strlit("2");
        reveal_strlit("3");
        reveal_strlit("4");
        reveal_strlit("5");
        reveal_strlit("6");
        reveal_strlit("7");
        reveal_strlit("8");
        reveal_strlit("9");
        reveal_strlit("A");
        reveal_strlit("B");
        reveal_strlit("C");
        reveal_strlit("D");
        reveal_strlit("E");
        reveal_strlit("F");
    }
    let s = if v == 0 {
        "0"
    } else if v == 1 {
        "1"
    } else if v == 2 {
        "2"
    } else if v == 3 {
        "3"
    } else if v == 4 {
        "4"
    } else if v == 5 {
        "5"
    } else if v == 6 {
        "6"
    } else if v == 7 {
        "7"
    } else if v == 8 {
        "8"
    } else if v == 9 {
        "9"
    } else if v == 10 {
        "A"
    } else if v == 11 {
        "B"
    } else if v == 12 {
        "C"
    } else if v == 13 {
        "D"
    } else if v == 14 {
        "E"
    } else {
        "F"
    };
    assert(s@ =~= seq![hex_char(v as int)]);
    s
}

/// Writes a colour as its colour code.
pub fn rgb_to_hex(r: u8, g: u8, b: u8) -> (hex: String)
    ensures
        hex@ == color_code(r, g, b),
{
    proof {
        reveal_strlit("#");
    }
    let mut hex = String::from_str("#");
    hex.append(hex_text(r / 16));
    hex.append(hex_text(r % 16));
    hex.append(hex_text(g / 16));
    hex.append(hex_text(g % 16));
    hex.append(hex_text(b / 16));
    hex.append(hex_text(b % 16));
    assert(hex@ =~= color_code(r, g, b));
    hex
}

/// A colour code reads back as the colour that it was written from.
pub proof fn lemma_color_code_reads_back(hex: &str, r: u8, g: u8, b: u8)
    requires
        hex@ == color_code(r, g, b),
    ensures
        is_plain_color_code(hex),
        hex_pair(hex@[1], hex@[2]) == Some(r as int),
        hex_pair(hex@[3], hex@[4]) == Some(g as int),
        hex_pair(hex@[5], hex@[6]) == Some(b as int),
{
    assert(hex.is_ascii()) by {
        reveal(vstd::utf8::is_ascii_chars);
    }
    vstd::string::is_ascii_spec_bytes(hex);
    lemma_hex_pair_of_byte(r);
    lemma_hex_pair_of_byte(g);
    lemma_hex_pair_of_byte(b);
}

/// The two digits of a byte read back as the byte.
proof fn lemma_hex_pair_of_byte(v: u8)
    ensures
        hex_pair(hex_char(v as int / 16), hex_char(v as int % 16)) == Some(v as int),
{
}

} // verus!
