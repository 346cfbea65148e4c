//! Text utilities of the folder: whitespace trimming and line folding.
//!
//! Whitespace is the Unicode `White_Space` set, the same set that the host
//! language's trimming uses.

use vstd::prelude::*;
use vstd::string::StrSliceExecFns;
use vstd::string::StringExecFns;

verus! {

/// Whether `c` has the Unicode `White_Space` property.
pub open spec fn is_space_char(c: char) -> bool {
    let u = c as u32;
    (0x9 <= u && u <= 0xD) || u == 0x20 || u == 0x85 || u == 0xA0 || u == 0x1680 || (0x2000 <= u
        && u <= 0x200A) || u == 0x2028 || u == 0x2029 || u == 0x202F || u == 0x205F || u == 0x3000
}

/// Whether `c` has the Unicode `White_Space` property.
pub fn is_space(c: char) -> (r: bool)
    ensures
        r == is_space_char(c),
{
    let u = c as u32;
    (0x9 <= u && u <= 0xD) || u == 0x20 || u == 0x85 || u == 0xA0 || u == 0x1680 || (0x2000 <= u
        && u <= 0x200A) || u == 0x2028 || u == 0x2029 || u == 0x202F || u == 0x205F || u == 0x3000
}

/// `s` without its leading whitespace.
pub open spec fn trim_start_spec(s: Seq<char>) -> Seq<char>
    decreases s.len(),
{
    if s.len() == 0 {
        s
    } else if is_space_char(s[0]) {
        trim_start_spec(s.drop_first())
    } else {
        s
    }
}

/// `s` without its trailing whitespace.
pub open spec fn trim_end_spec(s: Seq<char>) -> Seq<char>
    decreases s.len(),
{
    if s.len() == 0 {
        s
    } else if is_space_char(s.last()) {
        trim_end_spec(s.drop_last())
    } else {
        s
    }
}

/// `s` without its leading and trailing whitespace.
pub open spec fn trim_spec(s: Seq<char>) -> Seq<char> {
    trim_end_spec(trim_start_spec(s))
}

proof fn lemma_trim_start_all_space(s: Seq<char>)
    requires
        forall|k: int| 0 <= k < s.len() ==> is_space_char(s[k]),
    ensures
        trim_start_spec(s) =~= Seq::<char>::empty(),
    decreases s.len(),
{
    if s.len() > 0 {
        lemma_trim_start_all_space(s.drop_first());
    }
}

proof fn lemma_trim_start_at(s: Seq<char>, i: int)
    requires
        0 <= i < s.len(),
        forall|k: int| 0 <= k < i ==> is_space_char(s[k]),
        !is_space_char(s[i]),
    ensures
        trim_start_spec(s) =~= s.subrange(i, s.len() as int),
    decreases i,
{
    if i == 0 {
        assert(trim_start_spec(s) == s);
        assert(s.subrange(0, s.len() as int) =~= s);
    } else {
        let t = s.drop_first();
        lemma_trim_start_at(t, i - 1);
        assert(t.subrange(i - 1, t.len() as int) =~= s.subrange(i, s.len() as int));
    }
}

proof fn lemma_trim_end_at(s: Seq<char>, j: int)
    requires
        0 <= j <= s.len(),
        forall|k: int| j <= k < s.len() ==> is_space_char(s[k]),
        j > 0 ==> !is_space_char(s[j - 1]),
    ensures
        trim_end_spec(s) =~= s.subrange(0, j),
    decreases s.len(),
{
    if s.len() == 0 {
        assert(s.subrange(0, j) =~= s);
    } else if j == s.len() {
        assert(!is_space_char(s.last()));
        assert(s.subrange(0, j) =~= s);
    } else {
        let t = s.drop_last();
        lemma_trim_end_at(t, j);
        assert(t.subrange(0, j) =~= s.subrange(0, j));
    }
}

/// Copies `s` without its leading and trailing whitespace.
pub fn trim_str(s: &str) -> (r: String)
    ensures
        r@ == trim_spec(s@),
{
    let n = s.unicode_len();
    let mut i: usize = 0;
    while i < n && is_space(s.get_char(i))
        invariant
            i <= n,
            n == s@.len(),
            forall|k: int| 0 <= k < i ==> is_space_char(s@[k]),
        decreases n - i,
    {
        i = i + 1;
    }
    if i == n {
        proof {
            lemma_trim_start_all_space(s@);
        }
        String::new()
    } else {
        let mut j: usize = n;
        while j > i && is_space(s.get_char(j - 1))
            invariant
                i <= j <= n,
                n == s@.len(),
                forall|k: int| j <= k < n ==> is_space_char(s@[k]),
            decreases j,
        {
            j = j - 1;
        }
        let piece = s.substring_char(i, j);
        proof {
            lemma_trim_start_at(s@, i as int);
            let t = s@.subrange(i as int, n as int);
            lemma_trim_end_at(t, j - i);
            assert(t.subrange(0, j - i) =~= s@.subrange(i as int, j as int));
        }
        piece.to_owned()
    }
}

/// Whether two pieces of text hold the same characters.
pub fn str_eq(a: &str, b: &str) -> (r: bool)
    ensures
        r == (a@ == b@),
{
    let n = a.unicode_len();
    let m = b.unicode_len();
    if n != m {
        return false;
    }
    let mut i: usize = 0;
    while i < n
        invariant
            i <= n,
            n == a@.len(),
            n == b@.len(),
            forall|k: int| 0 <= k < i ==> a@[k] == b@[k],
        decreases n - i,
    {
        if a.get_char(i) != b.get_char(i) {
            return false;
        }
        i = i + 1;
    }
    proof {
        assert(a@ =~= b@);
    }
    true
}

/// The index of the first line break in `s` at or after `from`, or the
/// length of `s` when none follows.
pub open spec fn line_end(s: Seq<char>, from: int) -> int
    decreases s.len() - from,
{
    if from < 0 || from >= s.len() {
        s.len() as int
    } else if s[from] == '\n' {
        from
    } else {
        line_end(s, from + 1)
    }
}

proof fn lemma_line_end_bounds(s: Seq<char>, from: int)
    requires
        0 <= from <= s.len(),
    ensures
        from <= line_end(s, from) <= s.len(),
    decreases s.len() - from,
{
    if from < s.len() && s[from] != '\n' {
        lemma_line_end_bounds(s, from + 1);
    }
}

proof fn lemma_line_end_is(s: Seq<char>, from: int, e: int)
    requires
        0 <= from <= e <= s.len(),
        forall|k: int| from <= k < e ==> s[k] != '\n',
        e < s.len() ==> s[e] == '\n',
    ensures
        line_end(s, from) == e,
    decreases e - from,
{
    if from < e {
        lemma_line_end_is(s, from + 1, e);
    }
}

/// One folded line: nothing when the trimmed line is blank, else the
/// trimmed line followed by a line break.
pub open spec fn emit_line(line: Seq<char>) -> Seq<char> {
    if trim_spec(line).len() == 0 {
        Seq::<char>::empty()
    } else {
        trim_spec(line) + seq!['\n']
    }
}

/// The folded lines of `s` from position `from` on: each line-break-separated
/// piece trimmed, blank pieces dropped, each surviving piece followed by a
/// line break.
pub open spec fn fold_lines_from(s: Seq<char>, from: int) -> Seq<char>
    decreases s.len() - from + 1,
{
    if from < 0 || from > s.len() {
        Seq::<char>::empty()
    } else {
        let e = line_end(s, from);
        if from <= e <= s.len() {
            emit_line(s.subrange(from, e)) + fold_lines_from(s, e + 1)
        } else {
            Seq::<char>::empty()
        }
    }
}

/// The folded lines of a whole text.
pub open spec fn fold_lines_spec(s: Seq<char>) -> Seq<char> {
    fold_lines_from(s, 0)
}

/// Appends the folded lines of `s` to `buf`: each line trimmed, blank lines
/// dropped, each surviving line followed by a line break.
pub fn fold_lines(buf: &mut String, s: &str)
    ensures
        final(buf)@ == old(buf)@ + fold_lines_spec(s@),
{
    let n = s.unicode_len();
    let mut from: usize = 0;
    let ghost mut done: Seq<char> = Seq::<char>::empty();
    loop
        invariant_except_break
            buf@ == old(buf)@ + done,
            fold_lines_spec(s@) == done + fold_lines_from(s@, from as int),
        invariant
            n == s@.len(),
            from <= n,
        ensures
            buf@ == old(buf)@ + fold_lines_spec(s@),
        decreases n - from,
    {
        let mut e: usize = from;
        while e < n && s.get_char(e) != '\n'
            invariant
                from <= e <= n,
                n == s@.len(),
                forall|k: int| from <= k < e ==> s@[k] != '\n',
            decreases n - e,
        {
            e = e + 1;
        }
        proof {
            lemma_line_end_is(s@, from as int, e as int);
        }
        let piece = s.substring_char(from, e);
        let t = trim_str(piece);
        if t.unicode_len() > 0 {
            buf.append(t.as_str());
            buf.append("\n");
            proof {
                reveal_strlit("\n");
                assert(emit_line(s@.subrange(from as int, e as int)) =~= t@ + seq!['\n']);
                done = done + emit_line(s@.subrange(from as int, e as int));
                assert(buf@ =~= old(buf)@ + done);
            }
        } else {
            proof {
                assert(emit_line(s@.subrange(from as int, e as int)) =~= Seq::<char>::empty());
                done = done + emit_line(s@.subrange(from as int, e as int));
                assert(buf@ =~= old(buf)@ + done);
            }
        }
        proof {
            assert(fold_lines_from(s@, from as int) == emit_line(
                s@.subrange(from as int, e as int),
            ) + fold_lines_from(s@, e + 1));
            assert(fold_lines_spec(s@) == done + fold_lines_from(s@, e + 1));
        }
        if e == n {
            proof {
                assert(fold_lines_from(s@, n + 1) =~= Seq::<char>::empty());
                assert(buf@ =~= old(buf)@ + fold_lines_spec(s@));
            }
            break ;
        }
        from = e + 1;
    }
}

} // verus!
