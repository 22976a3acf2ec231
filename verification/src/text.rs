//! Verified text building: lowercase hex encoding of digest bytes, decimal
//! rendering of byte counts, and the per-project notification channel name.

use vstd::prelude::*;
use vstd::string::StringExecFns;

verus! {

/// The decimal digit character for `d` (`d < 10`).
pub open spec fn dec_char(d: u64) -> char {
    if d == 0 { '0' }
    else if d == 1 { '1' }
    else if d == 2 { '2' }
    else if d == 3 { '3' }
    else if d == 4 { '4' }
    else if d == 5 { '5' }
    else if d == 6 { '6' }
    else if d == 7 { '7' }
    else if d == 8 { '8' }
    else { '9' }
}

/// The usual decimal rendering of `n`, most significant digit first and
/// without leading zeroes (`0` renders as "0").
pub open spec fn dec_str(n: u64) -> Seq<char>
    decreases n,
{
    if n < 10 {
        seq![dec_char(n)]
    } else {
        dec_str(n / 10) + seq![dec_char(n % 10)]
    }
}

fn digit_str(d: u64) -> (s: &'static str)
    requires
        d < 10,
    ensures
        s@.len() == 1,
        s@[0] == dec_char(d),
{
    proof {
        reveal_strlit("0");
        reveal_strlit("1");
        reveal_strlit("2");
        reveal_strlit("3");
        reveal_strlit("4");
        reveal_strlit("5");
        reveal_strlit("6");
        reveal_strlit("7");
        reveal_strlit("8");
        reveal_strlit("9");
    }
    match d {
        0 => "0",
        1 => "1",
        2 => "2",
        3 => "3",
        4 => "4",
        5 => "5",
        6 => "6",
        7 => "7",
        8 => "8",
        _ => "9",
    }
}

/// Render `n` in decimal.
pub fn u64_to_string(n: u64) -> (s: String)
    ensures
        s@ == dec_str(n),
    decreases n,
{
    if n < 10 {
        let s = digit_str(n).to_owned();
        proof {
            assert(s@ =~= seq![dec_char(n)]);
        }
        s
    } else {
        let mut s = u64_to_string(n / 10);
        let d = digit_str(n % 10);
        s.append(d);
        proof {
            assert(d@ =~= seq![dec_char(n % 10)]);
            assert(s@ =~= dec_str(n / 10) + seq![dec_char(n % 10)]);
        }
        s
    }
}

/// The lowercase hex digit character for `d` (`d < 16`).
pub open spec fn hex_char(d: u8) -> char {
    if d < 10 { dec_char(d as u64) }
    else if d == 10 { 'a' }
    else if d == 11 { 'b' }
    else if d == 12 { 'c' }
    else if d == 13 { 'd' }
    else if d == 14 { 'e' }
    else { 'f' }
}

/// Lowercase hex encoding of `data`, two characters per byte, high nibble
/// first.
pub open spec fn hex_str_of(data: Seq<u8>) -> Seq<char>
    decreases data.len(),
{
    if data.len() == 0 {
        Seq::<char>::empty()
    } else {
        seq![hex_char(data.first() / 16), hex_char(data.first() % 16)] + hex_str_of(
            data.drop_first(),
        )
    }
}

/// Hex encoding yields two characters per byte.
pub proof fn lemma_hex_str_len(data: Seq<u8>)
    ensures
        hex_str_of(data).len() == 2 * data.len(),
    decreases data.len(),
{
    if data.len() > 0 {
        lemma_hex_str_len(data.drop_first());
    }
}

fn hex_digit_str(d: u8) -> (s: &'static str)
    requires
        d < 16,
    ensures
        s@.len() == 1,
        s@[0] == hex_char(d),
{
    if d < 10 {
        digit_str(d as u64)
    } else {
        proof {
            reveal_strlit("a");
            reveal_strlit("b");
            reveal_strlit("c");
            reveal_strlit("d");
            reveal_strlit("e");
            reveal_strlit("f");
        }
        match d {
            10 => "a",
            11 => "b",
            12 => "c",
            13 => "d",
            14 => "e",
            _ => "f",
        }
    }
}

/// Encode `data` as lowercase hex. The historical store emitted uppercase
/// hex here; the conventional lowercase form is chosen deliberately, since
/// no existing externalized files need to be matched.
pub fn to_hex_lower(data: &Vec<u8>) -> (s: String)
    ensures
        s@ == hex_str_of(data@),
{
    let mut s = String::new();
    let data_len = data.len();
    proof {
        assert(data@.skip(0) =~= data@);
    }
    for i in 0..data_len
        invariant
            data_len == data@.len(),
            hex_str_of(data@) =~= s@ + hex_str_of(data@.skip(i as int)),
    {
        let b = data[i];
        let hi = hex_digit_str(b / 16);
        let lo = hex_digit_str(b % 16);
        s.append(hi);
        s.append(lo);
        proof {
            assert(hi@ =~= seq![hex_char(b / 16)]);
            assert(lo@ =~= seq![hex_char(b % 16)]);
            assert(data@.skip(i as int).drop_first() =~= data@.skip(i + 1));
        }
    }
    proof {
        assert(data@.skip(data_len as int) =~= Seq::<u8>::empty());
        assert(s@ =~= hex_str_of(data@));
    }
    s
}

/// A path below `base`: the two pieces joined by one separator.
pub open spec fn joined_path_spec(base: Seq<char>, rel: Seq<char>) -> Seq<char> {
    base + "/"@ + rel
}

/// Join a base directory and a relative path.
pub fn join_path(base: &str, rel: &str) -> (s: String)
    ensures
        s@ == joined_path_spec(base@, rel@),
{
    let mut s = base.to_owned();
    s.append("/");
    s.append(rel);
    proof {
        assert(s@ =~= joined_path_spec(base@, rel@));
    }
    s
}

/// The notification channel name for one project: the closed-session event
/// is addressed per project id.
pub open spec fn session_event_name_spec(project_id: Seq<char>) -> Seq<char> {
    "project://"@ + project_id + "/sessions"@
}

/// Build the outbound channel name for `project_id`.
pub fn session_event_name(project_id: &str) -> (s: String)
    ensures
        s@ == session_event_name_spec(project_id@),
{
    let mut s = String::from_str("project://");
    s.append(project_id);
    s.append("/sessions");
    proof {
        assert(s@ =~= session_event_name_spec(project_id@));
    }
    s
}

} // verus!
