//! The client's reading of a daemon reply line.
use vstd::prelude::*;

verus! {

/// Whitespace trimmed from reply lines: the characters with the Unicode
/// `White_Space` property.
pub open spec fn is_space(c: char) -> bool {
    let u = c as u32;
    ||| 0x09 <= u <= 0x0D
    ||| u == 0x20
    ||| u == 0x85
    ||| u == 0xA0
    ||| u == 0x1680
    ||| 0x2000 <= u <= 0x200A
    ||| u == 0x2028
    ||| u == 0x2029
    ||| u == 0x202F
    ||| u == 0x205F
    ||| u == 0x3000
}

/// Length of `s` without its trailing whitespace.
pub open spec fn trim_end_len(s: Seq<char>) -> nat
    decreases s.len(),
{
    if s.len() > 0 && is_space(s.last()) {
        trim_end_len(s.drop_last())
    } else {
        s.len()
    }
}

/// Number of leading whitespace characters of `s`.
pub open spec fn lead_len(s: Seq<char>) -> nat
    decreases s.len(),
{
    if s.len() > 0 && is_space(s[0]) {
        1 + lead_len(s.drop_first())
    } else {
        0
    }
}

/// `s` without whitespace at either end.
pub open spec fn trimmed(s: Seq<char>) -> Seq<char> {
    let t = s.take(trim_end_len(s) as int);
    t.skip(lead_len(t) as int)
}

/// What a reply line means: `Ok` for `success`; for `fail: <message>`, the
/// message; anything else is reported as unexpected.
pub open spec fn reply_meaning(line: Seq<char>) -> Result<(), Seq<char>> {
    let t = line.take(trim_end_len(line) as int);
    if t == "success"@ {
        Ok(())
    } else if t.len() >= 5 && t.take(5) == "fail:"@ {
        Err(trimmed(t.skip(5)))
    } else {
        Err("unexpected response: "@ + t)
    }
}

proof fn lemma_trim_end_len_bound(s: Seq<char>)
    ensures
        trim_end_len(s) <= s.len(),
    decreases s.len(),
{
    if s.len() > 0 && is_space(s.last()) {
        lemma_trim_end_len_bound(s.drop_last());
    }
}

proof fn lemma_lead_len_bound(s: Seq<char>)
    ensures
        lead_len(s) <= s.len(),
    decreases s.len(),
{
    if s.len() > 0 && is_space(s[0]) {
        lemma_lead_len_bound(s.drop_first());
    }
}

fn is_space_char(c: char) -> (r: bool)
    ensures
        r == is_space(c),
{
    let u = c as u32;
    (0x09 <= u && u <= 0x0D) || u == 0x20 || u == 0x85 || u == 0xA0 || u == 0x1680 || (0x2000 <= u
        && u <= 0x200A) || u == 0x2028 || u == 0x2029 || u == 0x202F || u == 0x205F || u == 0x3000
}

fn trim_end_index(s: &str) -> (r: usize)
    ensures
        r == trim_end_len(s@),
{
    let mut i = s.unicode_len();
    proof {
        assert(s@.take(i as int) =~= s@);
    }
    while i > 0 && is_space_char(s.get_char(i - 1))
        invariant
            i <= s@.len(),
            trim_end_len(s@) == trim_end_len(s@.take(i as int)),
        decreases i,
    {
        proof {
            assert(s@.take(i as int).drop_last() =~= s@.take(i as int - 1));
        }
        i = i - 1;
    }
    i
}

fn lead_index(s: &str) -> (r: usize)
    ensures
        r == lead_len(s@),
        r <= s@.len(),
{
    let n = s.unicode_len();
    let mut i: usize = 0;
    proof {
        lemma_lead_len_bound(s@);
        assert(s@.skip(0) =~= s@);
    }
    while i < n && is_space_char(s.get_char(i))
        invariant
            n == s@.len(),
            i <= n,
            lead_len(s@) == i + lead_len(s@.skip(i as int)),
        decreases n - i,
    {
        proof {
            assert(s@.skip(i as int).drop_first() =~= s@.skip(i as int + 1));
        }
        i = i + 1;
    }
    i
}

/// Reads a reply line of the control protocol (see [`reply_meaning`]).
pub fn parse_reply(line: &str) -> (r: Result<(), String>)
    ensures
        match r {
            Ok(()) => reply_meaning(line@) == Ok::<(), Seq<char>>(()),
            Err(m) => reply_meaning(line@) == Err::<(), Seq<char>>(m@),
        },
{
    proof {
        lemma_trim_end_len_bound(line@);
    }
    let end = trim_end_index(line);
    let t = line.substring_char(0, end);
    assert(t@ == line@.take(trim_end_len(line@) as int));
    let ts = String::from_str(t);
    if ts == String::from_str("success") {
        return Ok(());
    }
    let n = t.unicode_len();
    if n >= 5 {
        let head = String::from_str(t.substring_char(0, 5));
        if head == String::from_str("fail:") {
            let rest = t.substring_char(5, n);
            assert(rest@ =~= t@.skip(5));
            proof {
                lemma_trim_end_len_bound(rest@);
            }
            let e = trim_end_index(rest);
            let core = rest.substring_char(0, e);
            let b = lead_index(core);
            let msg = core.substring_char(b, core.unicode_len());
            assert(msg@ =~= trimmed(t@.skip(5)));
            return Err(String::from_str(msg));
        }
    }
    let mut m = String::from_str("unexpected response: ");
    m.append(t);
    Err(m)
}

} // verus!
