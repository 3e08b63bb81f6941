use vstd::prelude::*;
use vstd::string::StrSliceExecFns;

verus! {

/// Why a line names no command.
#[derive(Clone, Copy, Debug, PartialEq, Eq, Structural)]
pub enum ParseError {
    /// The line is empty or holds only whitespace.
    CommandRequired,
}

/// Unicode's `White_Space` characters.
pub open spec fn is_space(c: char) -> bool {
    let v = c as u32;
    (0x9 <= v <= 0xD) || v == 0x20 || v == 0x85 || v == 0xA0 || v == 0x1680 || (0x2000 <= v
        <= 0x200A) || v == 0x2028 || v == 0x2029 || v == 0x202F || v == 0x205F || v == 0x3000
}

/// Decides `is_space`.
pub fn space(c: char) -> (r: bool)
    ensures
        r == is_space(c),
{
    let v = c as u32;
    (0x9 <= v && v <= 0xD) || v == 0x20 || v == 0x85 || v == 0xA0 || v == 0x1680 || (0x2000 <= v
        && v <= 0x200A) || v == 0x2028 || v == 0x2029 || v == 0x202F || v == 0x205F || v == 0x3000
}

/// The maximal runs of non-whitespace characters of `s`, in order.
pub open spec fn words(s: Seq<char>) -> Seq<Seq<char>>
    decreases s.len(),
{
    if s.len() == 0 {
        seq![]
    } else {
        let prev = words(s.drop_last());
        let c = s.last();
        if is_space(c) {
            prev
        } else if s.len() >= 2 && !is_space(s[s.len() - 2]) {
            prev.update(prev.len() - 1, prev.last().push(c))
        } else {
            prev.push(seq![c])
        }
    }
}

/// The character sequences of a sequence of strings.
pub open spec fn views(v: Seq<String>) -> Seq<Seq<char>> {
    v.map_values(|s: String| s@)
}

/// Splits `line` on whitespace into a command name and its arguments.
pub fn parse(line: &str) -> (r: Result<(String, Vec<String>), ParseError>)
    ensures
        match r {
            Ok((cmd, args)) => {
                &&& words(line@).len() > 0
                &&& cmd@ == words(line@)[0]
                &&& views(args@) == words(line@).drop_first()
            },
            Err(e) => words(line@).len() == 0 && e == ParseError::CommandRequired,
        },
{
    let n = line.unicode_len();
    let mut tokens: Vec<String> = Vec::new();
    let mut start: usize = 0;
    let mut in_word = false;
    let mut i: usize = 0;
    while i < n
        invariant
            n == line@.len(),
            i <= n,
            in_word == (i > 0 && !is_space(line@[i - 1])),
            in_word ==> start < i,
            in_word ==> words(line@.subrange(0, i as int)) == views(tokens@).push(
                line@.subrange(start as int, i as int),
            ),
            !in_word ==> words(line@.subrange(0, i as int)) == views(tokens@),
        decreases n - i,
    {
        let c = line.get_char(i);
        let ghost pre = line@.subrange(0, i as int);
        let ghost next = line@.subrange(0, i as int + 1);
        assert(next.drop_last() == pre);
        assert(next.last() == c);
        if space(c) {
            if in_word {
                let word = line.substring_char(start, i).to_owned();
                tokens.push(word);
                assert(views(tokens@) =~= words(pre));
            }
            in_word = false;
        } else {
            if in_word {
                assert(next[next.len() - 2] == line@[i - 1]);
                assert(line@.subrange(start as int, i as int).push(c) =~= line@.subrange(
                    start as int,
                    i as int + 1,
                ));
            } else {
                assert(i == 0 || next[next.len() - 2] == line@[i - 1]);
                start = i;
                assert(line@.subrange(start as int, i as int + 1) =~= seq![c]);
            }
            in_word = true;
        }
        i = i + 1;
    }
    assert(line@.subrange(0, n as int) == line@);
    if in_word {
        let word = line.substring_char(start, n).to_owned();
        tokens.push(word);
        assert(views(tokens@) =~= words(line@));
    }
    if tokens.len() == 0 {
        return Err(ParseError::CommandRequired);
    }
    let ghost all = tokens@;
    let cmd = tokens.remove(0);
    assert(views(tokens@) =~= views(all).drop_first());
    Ok((cmd, tokens))
}

} // verus!
