//! Legend text: a legend string is split into lines at newlines and at HTML `<br>` tags; any
//! other HTML-like tag is kept verbatim.

use vstd::prelude::*;

use crate::strings::{push_char_range, push_chars, str_chars, string_from_chars, string_push};

verus! {

/// A lexical token of legend text: `Some(c)` is a character of a line, `None` a line break.
pub type Lexeme = Option<char>;

/// Characters that may make up the name of a tag (ASCII letters and digits).
pub open spec fn is_name_char(c: char) -> bool {
    ('0' <= c && c <= '9') || ('a' <= c && c <= 'z') || ('A' <= c && c <= 'Z')
}

/// Number of leading name characters of `s`.
pub open spec fn name_len(s: Seq<char>) -> nat
    decreases s.len(),
{
    if s.len() == 0 || !is_name_char(s[0]) {
        0
    } else {
        1 + name_len(s.drop_first())
    }
}

/// Index of the first `c` in `s`, if any.
pub open spec fn find_char(s: Seq<char>, c: char) -> Option<nat>
    decreases s.len(),
{
    if s.len() == 0 {
        None
    } else if s[0] == c {
        Some(0)
    } else {
        match find_char(s.drop_first(), c) {
            Some(i) => Some(i + 1),
            None => None,
        }
    }
}

/// Every character of `s` as a character token.
pub open spec fn char_tokens(s: Seq<char>) -> Seq<Lexeme> {
    s.map_values(|c: char| Some(c))
}

/// The tag name `br`.
pub open spec fn br_name() -> Seq<char> {
    seq!['b', 'r']
}

/// Reading a tag: `rest` is what follows a `<`. Returns the tokens the tag stands for and the
/// input that is left after it.
///
/// The name is the run of letters and digits after `<`. If the input ends inside the name, the
/// `<` and the name are kept as text. If no `>` follows, `<` and the name are kept as text and
/// reading resumes right after the name. A `br` tag is a line break; any other tag is kept
/// verbatim up to and including its `>`.
pub open spec fn tag_split(rest: Seq<char>) -> (Seq<Lexeme>, Seq<char>) {
    let n = name_len(rest);
    if n >= rest.len() {
        (char_tokens(seq!['<'] + rest), Seq::empty())
    } else {
        let name = rest.take(n as int);
        let after = rest.skip(n as int);
        match find_char(after, '>') {
            None => (char_tokens(seq!['<'] + name), after),
            Some(t) => if name == br_name() {
                (seq![None], after.skip(t + 1 as int))
            } else {
                (char_tokens(seq!['<'] + name + after.take(t + 1 as int)), after.skip(t + 1 as int))
            },
        }
    }
}

/// The token stream of legend text.
pub open spec fn tokens(s: Seq<char>) -> Seq<Lexeme>
    decreases s.len(),
{
    if s.len() == 0 {
        Seq::empty()
    } else if s[0] == '\n' {
        seq![None] + tokens(s.drop_first())
    } else if s[0] == '<' {
        let (head, left) = tag_split(s.drop_first());
        if left.len() < s.len() {
            head + tokens(left)
        } else {
            head
        }
    } else {
        seq![Some(s[0])] + tokens(s.drop_first())
    }
}

/// Consumes tokens: characters extend the current `line`, a break moves the current line to
/// `done` and starts an empty one.
pub open spec fn consume(done: Seq<Seq<char>>, line: Seq<char>, t: Seq<Lexeme>) -> (
    Seq<Seq<char>>,
    Seq<char>,
)
    decreases t.len(),
{
    if t.len() == 0 {
        (done, line)
    } else {
        match t[0] {
            Some(c) => consume(done, line.push(c), t.drop_first()),
            None => consume(done.push(line), Seq::empty(), t.drop_first()),
        }
    }
}

/// The finished lines once the input is exhausted: an unfinished line is kept if it is not
/// empty.
pub open spec fn flush(state: (Seq<Seq<char>>, Seq<char>)) -> Seq<Seq<char>> {
    if state.1.len() == 0 {
        state.0
    } else {
        state.0.push(state.1)
    }
}

/// The lines of legend text `s`.
pub open spec fn text_lines(s: Seq<char>) -> Seq<Seq<char>> {
    flush(consume(Seq::empty(), Seq::empty(), tokens(s)))
}

/// The pieces of `lines` joined with `sep` between consecutive pieces.
pub open spec fn join(lines: Seq<Seq<char>>, sep: Seq<char>) -> Seq<char>
    decreases lines.len(),
{
    if lines.len() == 0 {
        Seq::empty()
    } else if lines.len() == 1 {
        lines[0]
    } else {
        lines[0] + sep + join(lines.drop_first(), sep)
    }
}

/// The token stream of text without tags: a newline is a break, anything else a character.
pub open spec fn plain_tokens(s: Seq<char>) -> Seq<Lexeme> {
    s.map_values(|c: char| if c == '\n' { None } else { Some(c) })
}

/// A line that reads back as itself: it holds no newline and no `<`.
pub open spec fn is_plain_line(line: Seq<char>) -> bool {
    !line.contains('\n') && !line.contains('<')
}

/// The tag `<br>`.
pub open spec fn br_tag() -> Seq<char> {
    seq!['<', 'b', 'r', '>']
}

// ---------------------------------------------------------------------------------------------
// Lemmas about the token stream
// ---------------------------------------------------------------------------------------------

proof fn lemma_name_len_bound(s: Seq<char>)
    ensures
        name_len(s) <= s.len(),
        forall|i: int| 0 <= i < name_len(s) ==> is_name_char(#[trigger] s[i]),
        name_len(s) < s.len() ==> !is_name_char(s[name_len(s) as int]),
    decreases s.len(),
{
    if s.len() > 0 && is_name_char(s[0]) {
        lemma_name_len_bound(s.drop_first());
        assert forall|i: int| 0 <= i < name_len(s) implies is_name_char(#[trigger] s[i]) by {
            if i > 0 {
                assert(s[i] == s.drop_first()[i - 1]);
            }
        }
    }
}

proof fn lemma_find_char(s: Seq<char>, c: char)
    ensures
        find_char(s, c) matches Some(i) ==> i < s.len() && s[i as int] == c && forall|j: int|
            0 <= j < i ==> #[trigger] s[j] != c,
        find_char(s, c) is None ==> forall|j: int| 0 <= j < s.len() ==> #[trigger] s[j] != c,
    decreases s.len(),
{
    if s.len() > 0 && s[0] != c {
        lemma_find_char(s.drop_first(), c);
        assert forall|j: int| 0 < j < s.len() implies #[trigger] s[j] == s.drop_first()[j - 1] by {}
    }
}

proof fn lemma_tag_split_shrinks(rest: Seq<char>)
    ensures
        tag_split(rest).1.len() <= rest.len(),
{
    lemma_name_len_bound(rest);
    let n = name_len(rest);
    if n < rest.len() {
        let after = rest.skip(n as int);
        lemma_find_char(after, '>');
    }
}

/// Unfolding of `tokens` at a `<`.
proof fn lemma_tokens_tag(s: Seq<char>)
    requires
        s.len() > 0,
        s[0] == '<',
    ensures
        tokens(s) == tag_split(s.drop_first()).0 + tokens(tag_split(s.drop_first()).1),
        tag_split(s.drop_first()).1.len() < s.len(),
{
    lemma_tag_split_shrinks(s.drop_first());
}

/// Consuming a concatenation consumes the parts one after the other.
proof fn lemma_consume_append(
    done: Seq<Seq<char>>,
    line: Seq<char>,
    a: Seq<Lexeme>,
    b: Seq<Lexeme>,
)
    ensures
        consume(done, line, a + b) == consume(consume(done, line, a).0, consume(done, line, a).1, b),
    decreases a.len(),
{
    if a.len() > 0 {
        assert((a + b).drop_first() =~= a.drop_first() + b);
        match a[0] {
            Some(c) => lemma_consume_append(done, line.push(c), a.drop_first(), b),
            None => lemma_consume_append(done.push(line), Seq::empty(), a.drop_first(), b),
        }
    } else {
        assert(a + b =~= b);
    }
}

/// Consuming character tokens appends the characters to the current line.
proof fn lemma_consume_chars(done: Seq<Seq<char>>, line: Seq<char>, s: Seq<char>)
    ensures
        consume(done, line, char_tokens(s)) == (done, line + s),
    decreases s.len(),
{
    if s.len() == 0 {
        assert(line + s =~= line);
    } else {
        let t = char_tokens(s);
        assert(t.len() == s.len());
        assert(t[0] == Some(s[0]));
        assert(t.drop_first() =~= char_tokens(s.drop_first()));
        lemma_consume_chars(done, line.push(s[0]), s.drop_first());
        assert(line.push(s[0]) + s.drop_first() =~= line + s);
    }
}

/// Consuming a single token.
proof fn lemma_consume_one(done: Seq<Seq<char>>, line: Seq<char>, tok: Lexeme)
    ensures
        consume(done, line, seq![tok]) == match tok {
            Some(c) => (done, line.push(c)),
            None => (done.push(line), Seq::<char>::empty()),
        },
{
    let t = seq![tok];
    assert(t.drop_first() =~= Seq::<Lexeme>::empty());
    match tok {
        Some(c) => {
            assert(consume(done, line.push(c), Seq::<Lexeme>::empty()) == (done, line.push(c)));
        },
        None => {
            assert(consume(done.push(line), Seq::empty(), Seq::<Lexeme>::empty()) == (
                done.push(line),
                Seq::<char>::empty(),
            ));
        },
    }
}


// ---------------------------------------------------------------------------------------------
// Laws
// ---------------------------------------------------------------------------------------------

proof fn lemma_join_push(lines: Seq<Seq<char>>, sep: Seq<char>, x: Seq<char>)
    requires
        lines.len() > 0,
    ensures
        join(lines.push(x), sep) == join(lines, sep) + sep + x,
    decreases lines.len(),
{
    assert(lines.push(x)[0] == lines[0]);
    if lines.len() == 1 {
        assert(lines.push(x).drop_first() =~= seq![x]);
        assert(join(seq![x], sep) == x);
    } else {
        assert(lines.push(x).drop_first() =~= lines.drop_first().push(x));
        lemma_join_push(lines.drop_first(), sep, x);
        assert(lines[0] + sep + (join(lines.drop_first(), sep) + sep + x) =~= lines[0] + sep
            + join(lines.drop_first(), sep) + sep + x);
    }
}

/// Text that starts without `<` is read character by character.
proof fn lemma_tokens_plain_prefix(x: Seq<char>, y: Seq<char>)
    requires
        !x.contains('<'),
    ensures
        tokens(x + y) == plain_tokens(x) + tokens(y),
    decreases x.len(),
{
    if x.len() == 0 {
        assert(x + y =~= y);
        assert(plain_tokens(x) + tokens(y) =~= tokens(y));
    } else {
        let s = x + y;
        assert(s[0] == x[0]);
        assert(s.drop_first() =~= x.drop_first() + y);
        assert(!x.drop_first().contains('<')) by {
            if x.drop_first().contains('<') {
                let i = choose|i: int| 0 <= i < x.drop_first().len() && x.drop_first()[i] == '<';
                assert(x[i + 1] == '<');
            }
        }
        assert(x[0] != '<') by {
            assert(x[0] == x[0]);
            if x[0] == '<' {
                assert(x.contains('<'));
            }
        }
        lemma_tokens_plain_prefix(x.drop_first(), y);
        let h: Lexeme = if x[0] == '\n' { None } else { Some(x[0]) };
        assert(tokens(s) == seq![h] + tokens(s.drop_first()));
        assert(plain_tokens(x) =~= seq![h] + plain_tokens(x.drop_first()));
        assert(seq![h] + (plain_tokens(x.drop_first()) + tokens(y)) =~= seq![h] + plain_tokens(
            x.drop_first(),
        ) + tokens(y));
    }
}

/// Law: text without any `<` has no tags. Each newline is a line break and every other
/// character belongs to a line.
pub proof fn law_tag_free_tokens(s: Seq<char>)
    requires
        !s.contains('<'),
    ensures
        tokens(s) == plain_tokens(s),
{
    lemma_tokens_plain_prefix(s, Seq::empty());
    assert(s + Seq::<char>::empty() =~= s);
    assert(plain_tokens(s) + tokens(Seq::<char>::empty()) =~= plain_tokens(s));
}

proof fn lemma_tokens_separator(sep: Seq<char>, y: Seq<char>)
    requires
        sep == br_tag() || sep == seq!['\n'],
    ensures
        tokens(sep + y) == seq![None::<char>] + tokens(y),
{
    let s = sep + y;
    if sep == br_tag() {
        let rest = s.drop_first();
        assert(rest[0] == 'b' && rest[1] == 'r' && rest[2] == '>');
        assert(name_len(rest.drop_first().drop_first()) == 0);
        assert(name_len(rest.drop_first()) == 1);
        assert(name_len(rest) == 2);
        let after = rest.skip(2);
        assert(after[0] == '>');
        assert(find_char(after, '>') == Some(0nat));
        assert(rest.take(2) =~= br_name());
        assert(after.skip(1) =~= y);
        lemma_tokens_tag(s);
    } else {
        assert(s[0] == '\n');
        assert(s.drop_first() =~= y);
    }
}

proof fn lemma_consume_join(done: Seq<Seq<char>>, lines: Seq<Seq<char>>, sep: Seq<char>)
    requires
        lines.len() > 0,
        forall|i: int| 0 <= i < lines.len() ==> is_plain_line(#[trigger] lines[i]),
        sep == br_tag() || sep == seq!['\n'],
    ensures
        consume(done, Seq::empty(), tokens(join(lines, sep))) == (
            done + lines.drop_last(),
            lines.last(),
        ),
    decreases lines.len(),
{
    let l0 = lines[0];
    assert(is_plain_line(l0));
    assert(plain_tokens(l0) =~= char_tokens(l0)) by {
        assert forall|i: int| 0 <= i < l0.len() implies l0[i] != '\n' by {
            if l0[i] == '\n' {
                assert(l0.contains('\n'));
            }
        }
    }
    if lines.len() == 1 {
        law_tag_free_tokens(l0);
        lemma_consume_chars(done, Seq::empty(), l0);
        assert(Seq::<char>::empty() + l0 =~= l0);
        assert(done + lines.drop_last() =~= done);
    } else {
        let rest = lines.drop_first();
        assert forall|i: int| 0 <= i < rest.len() implies is_plain_line(#[trigger] rest[i]) by {
            assert(rest[i] == lines[i + 1]);
        }
        let tail = join(rest, sep);
        assert(join(lines, sep) == l0 + sep + tail);
        assert(l0 + sep + tail =~= l0 + (sep + tail));
        lemma_tokens_plain_prefix(l0, sep + tail);
        lemma_tokens_separator(sep, tail);
        let t = char_tokens(l0) + seq![None::<char>] + tokens(tail);
        assert(tokens(join(lines, sep)) =~= t);
        lemma_consume_append(done, Seq::empty(), char_tokens(l0), seq![None::<char>] + tokens(tail));
        lemma_consume_chars(done, Seq::empty(), l0);
        assert(Seq::<char>::empty() + l0 =~= l0);
        lemma_consume_append(done, l0, seq![None::<char>], tokens(tail));
        lemma_consume_one(done, l0, None);
        lemma_consume_join(done.push(l0), rest, sep);
        assert(done.push(l0) + rest.drop_last() =~= done + lines.drop_last());
    }
}

/// Law: lines without newlines or `<`, joined with `<br>` tags or with newlines, parse back to
/// the same lines, provided the last line is not empty (an empty last line leaves no trace).
pub proof fn law_join_parse_roundtrip(lines: Seq<Seq<char>>, sep: Seq<char>)
    requires
        forall|i: int| 0 <= i < lines.len() ==> is_plain_line(#[trigger] lines[i]),
        lines.len() == 0 || lines.last().len() > 0,
        sep == br_tag() || sep == seq!['\n'],
    ensures
        text_lines(join(lines, sep)) == lines,
{
    if lines.len() == 0 {
        assert(tokens(Seq::<char>::empty()) =~= Seq::<Lexeme>::empty());
    } else {
        lemma_consume_join(Seq::empty(), lines, sep);
        assert(Seq::<Seq<char>>::empty() + lines.drop_last() =~= lines.drop_last());
        assert(lines.drop_last().push(lines.last()) =~= lines);
    }
}

// ---------------------------------------------------------------------------------------------
// Executable parser
// ---------------------------------------------------------------------------------------------

/// A single legend's text, made up of zero or more lines.
#[derive(Debug, Clone)]
pub struct Text(pub Vec<String>);

impl View for Text {
    type V = Seq<Seq<char>>;

    open spec fn view(&self) -> Seq<Seq<char>> {
        self.0@.map_values(|s: String| s@)
    }
}

/// Incremental legend text parser: `result` holds the finished lines, `line` the line being
/// built and `input[pos..]` the text still to be read.
pub struct TextParser {
    pub result: Vec<String>,
    pub line: String,
    pub input: Vec<char>,
    pub pos: usize,
}

impl TextParser {
    /// The finished lines, as character sequences.
    pub open spec fn done(&self) -> Seq<Seq<char>> {
        self.result@.map_values(|s: String| s@)
    }

    /// The text still to be read.
    pub open spec fn remaining(&self) -> Seq<char> {
        self.input@.skip(self.pos as int)
    }

    /// The lines this parser produces once it has read all of its input.
    pub open spec fn outcome(&self) -> Seq<Seq<char>> {
        flush(consume(self.done(), self.line@, tokens(self.remaining())))
    }

    pub open spec fn wf(&self) -> bool {
        self.pos <= self.input@.len()
    }

    /// A parser with nothing read yet.
    pub fn new(input: &str) -> (p: Self)
        ensures
            p.wf(),
            p.done() == Seq::<Seq<char>>::empty(),
            p.line@ == Seq::<char>::empty(),
            p.remaining() == input@,
    {
        let chars = str_chars(input);
        let p = TextParser { result: Vec::new(), line: String::new(), input: chars, pos: 0 };
        assert(p.input@.skip(0) =~= input@);
        assert(p.done() =~= Seq::<Seq<char>>::empty());
        p
    }

    /// The text still to be read, as a `String`.
    pub fn remaining_input(&self) -> (s: String)
        requires
            self.wf(),
        ensures
            s@ == self.remaining(),
    {
        let mut s = String::new();
        push_char_range(&mut s, &self.input, self.pos, self.input.len());
        assert(s@ =~= self.remaining());
        s
    }

    fn finish_line(&mut self)
        requires
            old(self).wf(),
        ensures
            final(self).wf(),
            final(self).input == old(self).input,
            final(self).pos == old(self).pos,
            final(self).done() == old(self).done().push(old(self).line@),
            final(self).line@ == Seq::<char>::empty(),
    {
        let mut line = String::new();
        std::mem::swap(&mut line, &mut self.line);
        self.result.push(line);
        assert(self.done() =~= old(self).done().push(old(self).line@));
    }

    /// Reads a tag whose `<` has just been read: the tag is read as `tag_split` describes and the
    /// tokens it stands for are consumed.
    pub fn parse_tag(&mut self)
        requires
            old(self).wf(),
        ensures
            final(self).wf(),
            final(self).input == old(self).input,
            final(self).remaining() == tag_split(old(self).remaining()).1,
            (final(self).done(), final(self).line@) == consume(
                old(self).done(),
                old(self).line@,
                tag_split(old(self).remaining()).0,
            ),
    {
        let ghost rest = self.remaining();
        let len = self.input.len();
        let start = self.pos;
        proof {
            lemma_name_len_bound(rest);
        }
        // Find the end of the tag name
        let mut name_end = start;
        while name_end < len && is_name_char_exec(self.input[name_end])
            invariant
                start <= name_end <= len,
                len == self.input@.len(),
                rest == self.input@.skip(start as int),
                forall|i: int| start <= i < name_end ==> is_name_char(#[trigger] self.input@[i]),
            decreases len - name_end,
        {
            name_end = name_end + 1;
        }
        proof {
            assert(name_len(rest) == name_end - start) by {
                lemma_name_len_prefix(rest, (name_end - start) as nat);
            }
        }
        if name_end == len {
            // The input ends inside the tag name: keep it as text
            string_push(&mut self.line, '<');
            push_char_range(&mut self.line, &self.input, start, len);
            self.pos = len;
            proof {
                assert(seq!['<'] + rest =~= seq!['<'] + self.input@.subrange(start as int, len as int));
                lemma_consume_chars(old(self).done(), old(self).line@, seq!['<'] + rest);
                assert(old(self).line@ + (seq!['<'] + rest) =~= self.line@);
                assert(self.remaining() =~= Seq::<char>::empty());
            }
            return;
        }
        let ghost name = rest.take(name_end - start);
        let ghost after = rest.skip(name_end - start);
        assert(after =~= self.input@.skip(name_end as int));
        assert(name =~= self.input@.subrange(start as int, name_end as int));
        proof {
            lemma_find_char(after, '>');
        }
        // Find the closing `>`
        let mut tag_end = name_end;
        while tag_end < len && self.input[tag_end] != '>'
            invariant
                name_end <= tag_end <= len,
                len == self.input@.len(),
                after == self.input@.skip(name_end as int),
                forall|i: int| name_end <= i < tag_end ==> #[trigger] self.input@[i] != '>',
            decreases len - tag_end,
        {
            tag_end = tag_end + 1;
        }
        if tag_end == len {
            // No closing `>`: keep `<` and the name as text and continue after the name
            string_push(&mut self.line, '<');
            push_char_range(&mut self.line, &self.input, start, name_end);
            self.pos = name_end;
            proof {
                assert(find_char(after, '>') is None) by {
                    if find_char(after, '>') is Some {
                        let t = find_char(after, '>')->0;
                        assert(after[t as int] == self.input@[name_end + t]);
                    }
                }
                lemma_consume_chars(old(self).done(), old(self).line@, seq!['<'] + name);
                assert(old(self).line@ + (seq!['<'] + name) =~= self.line@);
                assert(self.remaining() =~= after);
            }
            return;
        }
        let ghost t = (tag_end - name_end) as nat;
        proof {
            assert(find_char(after, '>') == Some(t)) by {
                let f = find_char(after, '>');
                if f is None {
                    assert(after[t as int] == self.input@[tag_end as int]);
                } else {
                    let ft = f->0;
                    assert(after[ft as int] == self.input@[name_end + ft]);
                    if ft < t {
                    } else if ft > t {
                        assert(after[t as int] == self.input@[tag_end as int]);
                    }
                }
            }
            assert(after.skip(t + 1 as int) =~= self.input@.skip(tag_end + 1));
            assert(after.take(t + 1 as int) =~= self.input@.subrange(name_end as int, tag_end + 1));
        }
        let is_br = name_end - start == 2 && self.input[start] == 'b' && self.input[start + 1]
            == 'r';
        assert(is_br == (name == br_name())) by {
            if name_end - start == 2 {
                if self.input@[start as int] == 'b' && self.input@[start + 1] == 'r' {
                    assert(name =~= br_name());
                } else {
                    assert(name[0] == self.input@[start as int]);
                    assert(name[1] == self.input@[start + 1]);
                }
            } else {
                assert(name.len() != br_name().len());
            }
        }
        self.pos = tag_end + 1;
        if is_br {
            self.finish_line();
            proof {
                lemma_consume_one(old(self).done(), old(self).line@, None);
                assert(self.remaining() =~= after.skip(t + 1 as int));
            }
        } else {
            // Pass unsupported tags through verbatim
            string_push(&mut self.line, '<');
            push_char_range(&mut self.line, &self.input, start, name_end);
            push_char_range(&mut self.line, &self.input, name_end, tag_end + 1);
            proof {
                let kept = seq!['<'] + name + after.take(t + 1 as int);
                lemma_consume_chars(old(self).done(), old(self).line@, kept);
                assert(old(self).line@ + kept =~= self.line@);
                assert(self.remaining() =~= after.skip(t + 1 as int));
            }
        }
    }

    /// Reads all of the remaining input and returns the finished text.
    pub fn parse(self) -> (t: Text)
        requires
            self.wf(),
        ensures
            t@ == self.outcome(),
    {
        let mut this = self;
        let ghost target = this.outcome();
        let len = this.input.len();
        while this.pos < len
            invariant
                this.wf(),
                len == this.input@.len(),
                this.outcome() == target,
            decreases len - this.pos,
        {
            let ghost s = this.remaining();
            let ghost before = this;
            assert(s[0] == this.input@[this.pos as int]);
            let c = this.input[this.pos];
            this.pos = this.pos + 1;
            assert(this.remaining() =~= s.drop_first());
            if c == '<' {
                proof {
                    lemma_tokens_tag(s);
                }
                this.parse_tag();
                proof {
                    let (head, left) = tag_split(s.drop_first());
                    lemma_consume_append(before.done(), before.line@, head, tokens(left));
                }
            } else if c == '\n' {
                this.finish_line();
                proof {
                    assert(tokens(s) == seq![None] + tokens(s.drop_first()));
                    lemma_consume_append(
                        before.done(),
                        before.line@,
                        seq![None],
                        tokens(s.drop_first()),
                    );
                    lemma_consume_one(before.done(), before.line@, None);
                }
            } else {
                string_push(&mut this.line, c);
                proof {
                    assert(tokens(s) == seq![Some(c)] + tokens(s.drop_first()));
                    lemma_consume_append(
                        before.done(),
                        before.line@,
                        seq![Some(c)],
                        tokens(s.drop_first()),
                    );
                    lemma_consume_one(before.done(), before.line@, Some(c));
                }
            }
        }
        assert(this.remaining() =~= Seq::<char>::empty());
        if this.line.unicode_len() != 0 {
            let line = this.line;
            let mut result = this.result;
            let ghost old_done = result@.map_values(|s: String| s@);
            result.push(line);
            let t = Text(result);
            assert(t@ =~= old_done.push(line@));
            t
        } else {
            Text(this.result)
        }
    }
}

proof fn lemma_name_len_prefix(s: Seq<char>, k: nat)
    requires
        k <= s.len(),
        forall|i: int| 0 <= i < k ==> is_name_char(#[trigger] s[i]),
        k == s.len() || !is_name_char(s[k as int]),
    ensures
        name_len(s) == k,
    decreases k,
{
    if k > 0 {
        assert forall|i: int| 0 <= i < k - 1 implies is_name_char(#[trigger] s.drop_first()[i]) by {
            assert(s.drop_first()[i] == s[i + 1]);
        }
        if k < s.len() {
            assert(s.drop_first()[k - 1] == s[k as int]);
        }
        lemma_name_len_prefix(s.drop_first(), (k - 1) as nat);
    }
}

fn is_name_char_exec(c: char) -> (b: bool)
    ensures
        b == is_name_char(c),
{
    ('0' <= c && c <= '9') || ('a' <= c && c <= 'z') || ('A' <= c && c <= 'Z')
}

impl Text {
    /// Parses a string legend. Lines are split at newlines and at HTML `<br>` tags; other
    /// HTML-like tags such as `<b>bold</b>` are kept as they are.
    pub fn parse_from(string: &str) -> (t: Text)
        ensures
            t@ == text_lines(string@),
    {
        let p = TextParser::new(string);
        p.parse()
    }

    /// The lines of the legend text.
    pub fn lines(&self) -> (r: Vec<&str>)
        ensures
            r@.len() == self@.len(),
            forall|i: int| 0 <= i < r@.len() ==> (#[trigger] r@[i])@ == self@[i],
    {
        let n = self.0.len();
        let mut r: Vec<&str> = Vec::new();
        let mut i: usize = 0;
        while i < n
            invariant
                n == self.0@.len(),
                i <= n,
                r@.len() == i,
                forall|j: int| 0 <= j < i ==> (#[trigger] r@[j])@ == self@[j],
            decreases n - i,
        {
            r.push(self.0[i].as_str());
            i = i + 1;
        }
        r
    }

    /// The text with its lines joined by the two characters `\n` (a backslash and an `n`).
    pub fn to_string(&self) -> (s: String)
        ensures
            s@ == join(self@, seq!['\\', 'n']),
    {
        let n = self.0.len();
        let mut s = String::new();
        let mut i: usize = 0;
        while i < n
            invariant
                n == self.0@.len(),
                i <= n,
                s@ == join(self@.take(i as int), seq!['\\', 'n']),
            decreases n - i,
        {
            if i > 0 {
                string_push(&mut s, '\\');
                string_push(&mut s, 'n');
            }
            let chars = str_chars(self.0[i].as_str());
            push_chars(&mut s, chars.as_slice());
            i = i + 1;
            proof {
                let prev = self@.take((i - 1) as int);
                let cur = self@.take(i as int);
                assert(cur =~= prev.push(self@[i - 1]));
                if i > 1 {
                    lemma_join_push(prev, seq!['\\', 'n'], self@[i - 1]);
                } else {
                    assert(s@ =~= join(cur, seq!['\\', 'n']));
                }
            }
        }
        assert(self@.take(n as int) =~= self@);
        s
    }
}

} // verus!
