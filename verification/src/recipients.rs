//! Loading a recipient list from the text of a recipients file: one address
//! per line, blank lines and `#`-comments skipped, malformed lines warned
//! about and skipped, and a failure when nothing valid remains.

use vstd::prelude::*;
use crate::address::{address_of_text, address_from_text, Address};

verus! {

/// The lines of a text, split on `'\n'`; the separator belongs to no line.
/// A text without a newline is one line; a trailing newline ends with an
/// empty line (blank, so it is skipped downstream).
pub open spec fn spec_lines(s: Seq<char>) -> Seq<Seq<char>>
    decreases s.len(),
{
    if s.len() == 0 {
        seq![Seq::<char>::empty()]
    } else if s[0] == '\n' {
        seq![Seq::<char>::empty()] + spec_lines(s.drop_first())
    } else {
        let rest = spec_lines(s.drop_first());
        seq![seq![s[0]] + rest[0]] + rest.drop_first()
    }
}

/// Splitting off the first line: up to the first newline (or the end) is one
/// line, and the rest splits on its own.
proof fn lemma_spec_lines_chunk(s: Seq<char>, j: int)
    requires
        0 <= j <= s.len(),
        forall|k: int| 0 <= k < j ==> s[k] != '\n',
        j == s.len() || s[j] == '\n',
    ensures
        j == s.len() ==> spec_lines(s) == seq![s],
        j < s.len() ==> spec_lines(s) == seq![s.take(j)] + spec_lines(s.skip(j + 1)),
    decreases j,
{
    if j == 0 {
        if s.len() == 0 {
            assert(s =~= Seq::<char>::empty());
        } else {
            assert(s.take(0) =~= Seq::<char>::empty());
            assert(s.drop_first() =~= s.skip(1));
        }
    } else {
        let d = s.drop_first();
        assert forall|k: int| 0 <= k < j - 1 implies d[k] != '\n' by {
            assert(d[k] == s[k + 1]);
        }
        lemma_spec_lines_chunk(d, j - 1);
        let rest = spec_lines(d);
        if j == s.len() {
            assert(rest == seq![d]);
            assert(seq![s[0]] + rest[0] =~= s);
            assert(spec_lines(s) =~= seq![s]);
        } else {
            assert(rest == seq![d.take(j - 1)] + spec_lines(d.skip(j)));
            assert(rest[0] == d.take(j - 1));
            assert(rest.drop_first() =~= spec_lines(d.skip(j)));
            assert(seq![s[0]] + d.take(j - 1) =~= s.take(j));
            assert(d.skip(j) =~= s.skip(j + 1));
            assert(spec_lines(s) =~= seq![s.take(j)] + spec_lines(s.skip(j + 1)));
        }
    }
}

/// The views of a sequence of owned lines.
pub open spec fn line_views(v: Seq<String>) -> Seq<Seq<char>> {
    v.map_values(|l: String| l@)
}

/// The index of the first newline at or after `from`, or the length.
fn find_newline(s: &str, from: usize) -> (r: usize)
    requires
        from <= s@.len(),
    ensures
        from <= r <= s@.len(),
        forall|k: int| from <= k < r ==> s@[k] != '\n',
        r < s@.len() ==> s@[r as int] == '\n',
{
    let len = s.unicode_len();
    let mut i: usize = from;
    while i < len
        invariant
            from <= i <= len,
            len == s@.len(),
            forall|k: int| from <= k < i ==> s@[k] != '\n',
        decreases len - i,
    {
        if s.get_char(i) == '\n' {
            return i;
        }
        i = i + 1;
    }
    i
}

/// Split a text into its lines, separated by `'\n'`.
pub fn split_lines(s: &str) -> (r: Vec<String>)
    ensures
        line_views(r@) == spec_lines(s@),
{
    let len = s.unicode_len();
    let mut out: Vec<String> = Vec::new();
    let mut st: usize = 0;
    proof {
        assert(s@.skip(0) =~= s@);
        assert(line_views(out@) + spec_lines(s@) =~= spec_lines(s@));
    }
    loop
        invariant_except_break
            st <= len,
            len == s@.len(),
            spec_lines(s@) == line_views(out@) + spec_lines(s@.skip(st as int)),
        ensures
            line_views(out@) == spec_lines(s@),
        decreases len - st,
    {
        let ghost old_out = out@;
        let j = find_newline(s, st);
        let piece = s.substring_char(st, j);
        out.push(piece.to_owned());
        proof {
            let d = s@.skip(st as int);
            assert forall|k: int| 0 <= k < j - st implies d[k] != '\n' by {
                assert(d[k] == s@[k + st]);
            }
            if (j as int) < s@.len() {
                assert(d[j - st] == s@[j as int]);
            }
            lemma_spec_lines_chunk(d, j - st);
            assert(line_views(out@) =~= line_views(old_out) + seq![piece@]);
        }
        if j == len {
            proof {
                let d = s@.skip(st as int);
                assert(piece@ =~= d);
                assert(line_views(out@) =~= spec_lines(s@));
            }
            break;
        }
        proof {
            let d = s@.skip(st as int);
            assert(d.take(j - st) =~= piece@);
            assert(d.skip(j - st + 1) =~= s@.skip(j + 1));
            assert(line_views(out@) + spec_lines(s@.skip(j + 1)) =~= spec_lines(s@));
        }
        st = j + 1;
    }
    out
}

/// The whitespace a line is trimmed of.
pub open spec fn is_space(c: char) -> bool {
    c == ' ' || c == '\t' || c == '\n' || c == '\r' || c == '\x0b' || c == '\x0c'
}

/// `s` with leading whitespace removed.
pub open spec fn trim_front(s: Seq<char>) -> Seq<char>
    decreases s.len(),
{
    if s.len() > 0 && is_space(s[0]) {
        trim_front(s.drop_first())
    } else {
        s
    }
}

/// `s` with trailing whitespace removed.
pub open spec fn trim_back(s: Seq<char>) -> Seq<char>
    decreases s.len(),
{
    if s.len() > 0 && is_space(s.last()) {
        trim_back(s.drop_last())
    } else {
        s
    }
}

/// `s` with leading and trailing whitespace removed.
pub open spec fn spec_trim(s: Seq<char>) -> Seq<char> {
    trim_back(trim_front(s))
}

fn is_space_char(c: char) -> (r: bool)
    ensures
        r == is_space(c),
{
    c == ' ' || c == '\t' || c == '\n' || c == '\r' || c == '\x0b' || c == '\x0c'
}

/// Remove leading and trailing whitespace.
pub fn trim_text<'a>(s: &'a str) -> (r: &'a str)
    ensures
        r@ == spec_trim(s@),
{
    let len = s.unicode_len();
    let mut a: usize = 0;
    proof {
        assert(s@.skip(0) =~= s@);
    }
    while a < len && is_space_char(s.get_char(a))
        invariant
            a <= len,
            len == s@.len(),
            trim_front(s@) == trim_front(s@.skip(a as int)),
        decreases len - a,
    {
        proof {
            assert(s@.skip(a as int)[0] == s@[a as int]);
            assert(s@.skip(a as int).drop_first() =~= s@.skip(a as int + 1));
        }
        a = a + 1;
    }
    proof {
        if a < len {
            assert(s@.skip(a as int)[0] == s@[a as int]);
        }
        assert(trim_front(s@.skip(a as int)) == s@.skip(a as int));
        assert(s@.skip(a as int) =~= s@.subrange(a as int, len as int));
    }
    let mut b: usize = len;
    while b > a && is_space_char(s.get_char(b - 1))
        invariant
            a <= b <= len,
            len == s@.len(),
            trim_front(s@) == s@.subrange(a as int, len as int),
            trim_back(s@.subrange(a as int, len as int)) == trim_back(s@.subrange(a as int, b as int)),
        decreases b,
    {
        proof {
            assert(s@.subrange(a as int, b as int).last() == s@[b - 1]);
            assert(s@.subrange(a as int, b as int).drop_last() =~= s@.subrange(a as int, b as int - 1));
        }
        b = b - 1;
    }
    proof {
        if b > a {
            assert(s@.subrange(a as int, b as int).last() == s@[b - 1]);
        }
        assert(trim_back(s@.subrange(a as int, b as int)) == s@.subrange(a as int, b as int));
    }
    s.substring_char(a, b)
}

/// Whether a line is skipped silently: blank, or a `#`-comment.
pub open spec fn line_skipped(l: Seq<char>) -> bool {
    spec_trim(l).len() == 0 || spec_trim(l)[0] == '#'
}

/// Whether a line contributes a recipient.
pub open spec fn line_kept(l: Seq<char>) -> bool {
    !line_skipped(l) && address_of_text(spec_trim(l)) is Some
}

/// Whether a line draws a warning: neither skipped nor a valid address.
pub open spec fn line_warned(l: Seq<char>) -> bool {
    !line_skipped(l) && address_of_text(spec_trim(l)) is None
}

/// The recipients a sequence of lines yields, in line order.
pub open spec fn spec_recipients(lines: Seq<Seq<char>>) -> Seq<Seq<u8>>
    decreases lines.len(),
{
    if lines.len() == 0 {
        Seq::empty()
    } else {
        let rest = spec_recipients(lines.drop_first());
        if line_kept(lines[0]) {
            seq![address_of_text(spec_trim(lines[0]))->Some_0] + rest
        } else {
            rest
        }
    }
}

/// The warnings a sequence of lines draws, as (1-based line number,
/// trimmed text) pairs, where the first line has number `base`.
pub open spec fn spec_warnings(lines: Seq<Seq<char>>, base: int) -> Seq<(int, Seq<char>)>
    decreases lines.len(),
{
    if lines.len() == 0 {
        Seq::empty()
    } else {
        let rest = spec_warnings(lines.drop_first(), base + 1);
        if line_warned(lines[0]) {
            seq![(base, spec_trim(lines[0]))] + rest
        } else {
            rest
        }
    }
}

/// A warning for one malformed line: its 1-based number and trimmed text.
#[derive(Debug)]
pub struct LineWarning {
    pub line: usize,
    pub text: String,
}

/// Why a recipient list could not be loaded.
#[derive(Clone, Copy, Debug, PartialEq, Eq)]
pub enum RecipientsError {
    /// Every line was blank, a comment, or malformed.
    NoValidRecipients,
}

/// A loaded recipient list together with the warnings drawn while loading.
#[derive(Debug)]
pub struct RecipientLoad {
    pub recipients: Vec<Address>,
    pub warnings: Vec<LineWarning>,
}

/// The views of a sequence of addresses.
pub open spec fn recipient_views(v: Seq<Address>) -> Seq<Seq<u8>> {
    v.map_values(|a: Address| a@)
}

/// The views of a sequence of warnings.
pub open spec fn warning_views(v: Seq<LineWarning>) -> Seq<(int, Seq<char>)> {
    v.map_values(|w: LineWarning| (w.line as int, w.text@))
}

/// Load recipients from the text of a recipients file. Each line is trimmed;
/// blank lines and `#`-comments are skipped silently; a line that is not a
/// valid address draws a warning and is skipped; the valid addresses are
/// returned in file order, duplicates preserved. Fails when no valid
/// address remains.
pub fn load_recipients(content: &str) -> (r: Result<RecipientLoad, RecipientsError>)
    ensures
        match r {
            Ok(load) => {
                &&& recipient_views(load.recipients@) == spec_recipients(spec_lines(content@))
                &&& load.recipients@.len() > 0
                &&& warning_views(load.warnings@) == spec_warnings(spec_lines(content@), 1)
            },
            Err(RecipientsError::NoValidRecipients) => spec_recipients(
                spec_lines(content@),
            ).len() == 0,
        },
{
    let lines = split_lines(content);
    let n = lines.len();
    let mut recipients: Vec<Address> = Vec::new();
    let mut warnings: Vec<LineWarning> = Vec::new();
    let mut i: usize = 0;
    proof {
        assert(line_views(lines@).skip(0) =~= line_views(lines@));
        assert(recipient_views(recipients@) + spec_recipients(line_views(lines@))
            =~= spec_recipients(line_views(lines@)));
        assert(warning_views(warnings@) + spec_warnings(line_views(lines@), 1)
            =~= spec_warnings(line_views(lines@), 1));
    }
    while i < n
        invariant
            i <= n,
            n == lines@.len(),
            line_views(lines@) == spec_lines(content@),
            recipient_views(recipients@) + spec_recipients(line_views(lines@).skip(i as int))
                == spec_recipients(spec_lines(content@)),
            warning_views(warnings@) + spec_warnings(line_views(lines@).skip(i as int), i as int + 1)
                == spec_warnings(spec_lines(content@), 1),
        decreases n - i,
    {
        let ghost lv: Seq<char> = lines@[i as int]@;
        let ghost d = line_views(lines@).skip(i as int);
        let ghost old_recipients = recipients@;
        let ghost old_warnings = warnings@;
        proof {
            assert(d[0] == line_views(lines@)[i as int]);
            assert(line_views(lines@)[i as int] == lv);
            assert(d.drop_first() =~= line_views(lines@).skip(i as int + 1));
        }
        let t = trim_text(lines[i].as_str());
        let tlen = t.unicode_len();
        if tlen == 0 {
            proof {
                assert(line_skipped(lv));
            }
        } else if t.get_char(0) == '#' {
            proof {
                assert(spec_trim(lv)[0] == '#');
                assert(line_skipped(lv));
            }
        } else {
            match address_from_text(t) {
                Some(addr) => {
                    recipients.push(addr);
                    proof {
                        assert(line_kept(lv));
                        assert(recipient_views(recipients@)
                            =~= recipient_views(old_recipients) + seq![addr@]);
                        assert(spec_recipients(d)
                            == seq![address_of_text(spec_trim(lv))->Some_0] + spec_recipients(d.drop_first()));
                        assert(recipient_views(recipients@) + spec_recipients(d.drop_first())
                            =~= recipient_views(old_recipients) + spec_recipients(d));
                    }
                },
                None => {
                    let warning = LineWarning { line: i + 1, text: t.to_owned() };
                    warnings.push(warning);
                    proof {
                        assert(line_warned(lv));
                        assert(warning_views(warnings@)
                            =~= warning_views(old_warnings) + seq![(i as int + 1, spec_trim(lv))]);
                        assert(spec_warnings(d, i as int + 1)
                            == seq![(i as int + 1, spec_trim(lv))] + spec_warnings(d.drop_first(), i as int + 2));
                        assert(warning_views(warnings@) + spec_warnings(d.drop_first(), i as int + 2)
                            =~= warning_views(old_warnings) + spec_warnings(d, i as int + 1));
                    }
                },
            }
        }
        i = i + 1;
    }
    proof {
        assert(line_views(lines@).skip(n as int) =~= Seq::<Seq<char>>::empty());
        assert(recipient_views(recipients@) + spec_recipients(Seq::<Seq<char>>::empty())
            =~= recipient_views(recipients@));
        assert(warning_views(warnings@) + spec_warnings(Seq::<Seq<char>>::empty(), n as int + 1)
            =~= warning_views(warnings@));
    }
    if recipients.len() == 0 {
        Err(RecipientsError::NoValidRecipients)
    } else {
        Ok(RecipientLoad { recipients, warnings })
    }
}

} // verus!
