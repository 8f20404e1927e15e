//! Lists of lines and how they are joined.

use vstd::prelude::*;
use vstd::string::StringExecFns;

verus! {

/// The character sequences of a list of strings, one for one.
pub open spec fn lines_of(items: Seq<String>) -> Seq<Seq<char>> {
    Seq::new(items.len(), |i: int| items[i]@)
}

/// `parts` written one after another with `sep` between neighbours.
pub open spec fn joined(parts: Seq<Seq<char>>, sep: Seq<char>) -> Seq<char>
    decreases parts.len(),
{
    if parts.len() == 0 {
        Seq::empty()
    } else if parts.len() == 1 {
        parts[0]
    } else {
        joined(parts.drop_last(), sep) + sep + parts.last()
    }
}

/// Every line of `lines` with `prefix` put in front of it.
pub open spec fn prefixed(lines: Seq<Seq<char>>, prefix: Seq<char>) -> Seq<Seq<char>> {
    Seq::new(lines.len(), |i: int| prefix + lines[i])
}

/// Whether `value` holds exactly the text `literal`.
pub fn is_text(value: &String, literal: &str) -> (r: bool)
    ensures
        r == (value@ == literal@),
{
    let wanted = literal.to_owned();
    *value == wanted
}

/// `parts` joined into one string, with `sep` between neighbours.
pub fn join(parts: &Vec<String>, sep: &str) -> (r: String)
    ensures
        r@ == joined(lines_of(parts@), sep@),
{
    let mut out = String::new();
    let mut i: usize = 0;
    while i < parts.len()
        invariant
            i <= parts.len(),
            out@ == joined(lines_of(parts@).subrange(0, i as int), sep@),
        decreases parts.len() - i,
    {
        if i > 0 {
            out.append(sep);
        }
        out.append(parts[i].as_str());
        proof {
            let all = lines_of(parts@);
            let before = all.subrange(0, i as int);
            let after = all.subrange(0, i + 1);
            assert(after.drop_last() == before);
            assert(after.last() == parts@[i as int]@);
        }
        i += 1;
    }
    proof {
        assert(lines_of(parts@).subrange(0, parts.len() as int) == lines_of(parts@));
    }
    out
}

/// A copy of `lines` in which each line starts with `prefix`.
pub fn prefix_each(lines: &Vec<String>, prefix: &str) -> (r: Vec<String>)
    ensures
        lines_of(r@) == prefixed(lines_of(lines@), prefix@),
{
    let mut out: Vec<String> = Vec::new();
    let mut i: usize = 0;
    while i < lines.len()
        invariant
            i <= lines.len(),
            out.len() == i,
            forall|k: int| 0 <= k < i ==> out@[k]@ == prefix@ + #[trigger] lines@[k]@,
        decreases lines.len() - i,
    {
        let mut line = prefix.to_owned();
        line.append(lines[i].as_str());
        out.push(line);
        i += 1;
    }
    proof {
        assert(lines_of(out@) =~= prefixed(lines_of(lines@), prefix@));
    }
    out
}

/// A copy of `lines`.
pub fn copy_lines(lines: &Vec<String>) -> (r: Vec<String>)
    ensures
        lines_of(r@) == lines_of(lines@),
{
    let mut out: Vec<String> = Vec::new();
    let mut i: usize = 0;
    while i < lines.len()
        invariant
            i <= lines.len(),
            out.len() == i,
            forall|k: int| 0 <= k < i ==> out@[k]@ == #[trigger] lines@[k]@,
        decreases lines.len() - i,
    {
        out.push(lines[i].clone());
        i += 1;
    }
    proof {
        assert(lines_of(out@) =~= lines_of(lines@));
    }
    out
}

} // verus!
