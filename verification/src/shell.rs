//! Shell command lines: quoting, assembling, and how a POSIX shell reads them.
//!
//! A command line is modelled as a sequence of [`Piece`]s, each either literal shell text or an
//! argument that is put in between single quotes. [`render`] gives the text of such a sequence.
use crate::error::Refusal;
use crate::string_map::StringMap;
use crate::text::{decimal, decimal_reads_back, decimal_text, is_digit};
use vstd::prelude::*;

verus! {

/// A piece of a command line.
pub enum Piece {
    /// Shell text that stands in the command line as it is.
    Lit(Seq<char>),
    /// An argument that stands in the command line between single quotes.
    Arg(Seq<char>),
}

/// The text of one character of a quoted argument: a single quote closes the quotation, adds an
/// escaped quote and opens the quotation again.
pub open spec fn quoted_char(c: char) -> Seq<char> {
    if c == '\'' {
        seq!['\'', '\\', '\'', '\'']
    } else {
        seq![c]
    }
}

/// The characters of a quoted argument between its outer quotes.
pub open spec fn quoted_body(s: Seq<char>) -> Seq<char>
    decreases s.len(),
{
    if s.len() == 0 {
        seq![]
    } else {
        quoted_body(s.drop_last()) + quoted_char(s.last())
    }
}

/// `s` as a single-quoted shell word.
pub open spec fn quoted(s: Seq<char>) -> Seq<char> {
    seq!['\''] + quoted_body(s) + seq!['\'']
}

/// The text of one piece.
pub open spec fn piece_text(p: Piece) -> Seq<char> {
    match p {
        Piece::Lit(s) => s,
        Piece::Arg(s) => quoted(s),
    }
}

/// The text of a command line.
pub open spec fn render(pieces: Seq<Piece>) -> Seq<char>
    decreases pieces.len(),
{
    if pieces.len() == 0 {
        seq![]
    } else {
        render(pieces.drop_last()) + piece_text(pieces.last())
    }
}

/// Literal text as a command line of its own.
pub open spec fn lit(s: &str) -> Seq<Piece> {
    seq![Piece::Lit(s@)]
}

/// The option `name` followed by the quoted `value`. `name` holds its own leading and trailing
/// blanks.
pub open spec fn named(name: &str, value: Seq<char>) -> Seq<Piece> {
    seq![Piece::Lit(name@), Piece::Arg(value)]
}

/// `text` when `on`, else nothing.
pub open spec fn flag(on: bool, text: &str) -> Seq<Piece> {
    if on {
        lit(text)
    } else {
        seq![]
    }
}

/// `named` for a value that may be absent, in which case nothing is added.
pub open spec fn option(name: &str, value: Option<Seq<char>>) -> Seq<Piece> {
    match value {
        Some(v) => named(name, v),
        None => seq![],
    }
}

/// One `named` for each value, in order.
pub open spec fn repeated(name: &str, values: Seq<Seq<char>>) -> Seq<Piece>
    decreases values.len(),
{
    if values.len() == 0 {
        seq![]
    } else {
        repeated(name, values.drop_last()) + named(name, values.last())
    }
}

/// The option `name` followed by a quoted key, `=` and a quoted value, once for each entry.
pub open spec fn settings(name: &str, entries: Seq<(Seq<char>, Seq<char>)>) -> Seq<Piece>
    decreases entries.len(),
{
    if entries.len() == 0 {
        seq![]
    } else {
        settings(name, entries.drop_last()) + named(name, entries.last().0) + named(
            "=",
            entries.last().1,
        )
    }
}

/// The entries of a map that may be absent; an absent map counts as empty.
pub open spec fn opt_entries(map: Option<StringMap>) -> Seq<(Seq<char>, Seq<char>)> {
    match map {
        Some(m) => m@,
        None => seq![],
    }
}

/// A flag that may be absent; an absent flag counts as off.
pub open spec fn is_on(flag: Option<bool>) -> bool {
    flag == Some(true)
}

/// The value of a flag that may be absent.
pub fn on(flag: Option<bool>) -> (r: bool)
    ensures
        r == is_on(flag),
{
    match flag {
        Some(b) => b,
        None => false,
    }
}

/// The command of `pieces`, unless it is refused.
pub open spec fn command_unless(refusal: Option<Refusal>, pieces: Seq<Piece>) -> Result<
    Seq<char>,
    Refusal,
> {
    match refusal {
        Some(r) => Err(r),
        None => Ok(render(pieces)),
    }
}

/// The texts of a list of strings.
pub open spec fn texts(values: Seq<String>) -> Seq<Seq<char>> {
    Seq::new(values.len(), |i: int| values[i]@)
}

/// The text of a string that may be absent.
pub open spec fn opt_text(value: Option<String>) -> Option<Seq<char>> {
    match value {
        Some(s) => Some(s@),
        None => None,
    }
}

/// The text of a list of strings that may be absent; an absent list counts as empty.
pub open spec fn opt_texts(values: Option<Vec<String>>) -> Seq<Seq<char>> {
    match values {
        Some(v) => texts(v@),
        None => seq![],
    }
}

/// Quotes `s` as one shell word.
pub fn shell_escape(s: &str) -> (r: String)
    ensures
        r@ == quoted(s@),
{
    let mut out: String = String::new();
    out.push('\'');
    for c in it: s.chars()
        invariant
            it.seq() == s@,
            out@ == seq!['\''] + quoted_body(s@.take(it.index() as int)),
    {
        let ghost n = it.index() as int;
        assert(s@.take(n + 1).drop_last() =~= s@.take(n));
        assert(s@.take(n + 1).last() == c);
        if c == '\'' {
            out.push('\'');
            out.push('\\');
            out.push('\'');
            out.push('\'');
        } else {
            out.push(c);
        }
        assert(out@ =~= seq!['\''] + quoted_body(s@.take(n + 1)));
    }
    assert(s@.take(s@.len() as int) =~= s@);
    out.push('\'');
    assert(out@ =~= quoted(s@));
    out
}

/// A command line under construction.
pub struct CommandLine {
    text: String,
    pieces: Ghost<Seq<Piece>>,
}

impl View for CommandLine {
    type V = Seq<Piece>;

    closed spec fn view(&self) -> Seq<Piece> {
        self.pieces@
    }
}

impl CommandLine {
    /// The text that was put together is the text of the pieces.
    pub closed spec fn wf(&self) -> bool {
        self.text@ == render(self.pieces@)
    }

    /// A command line that starts with `text`.
    pub fn new(text: &str) -> (r: Self)
        ensures
            r.wf(),
            r@ == lit(text),
    {
        let r = CommandLine { text: text.to_owned(), pieces: Ghost(lit(text)) };
        assert(r.pieces@.drop_last() =~= seq![]);
        assert(render(r.pieces@.drop_last()) =~= seq![]);
        assert(r.text@ =~= render(r.pieces@));
        r
    }

    /// Adds literal text.
    pub fn lit(&mut self, text: &str)
        requires
            old(self).wf(),
        ensures
            final(self).wf(),
            final(self)@ == old(self)@ + lit(text),
    {
        self.text.append(text);
        let ghost old_pieces = self.pieces@;
        self.pieces = Ghost(old_pieces + lit(text));
        assert(self.pieces@.drop_last() =~= old_pieces);
    }

    /// Adds a number in decimal.
    pub fn number(&mut self, n: u64)
        requires
            old(self).wf(),
        ensures
            final(self).wf(),
            final(self)@ == old(self)@ + seq![Piece::Lit(crate::text::decimal(n as nat))],
    {
        let digits: String = decimal_text(n);
        self.lit(digits.as_str());
    }

    /// Adds a quoted argument.
    pub fn arg(&mut self, value: &str)
        requires
            old(self).wf(),
        ensures
            final(self).wf(),
            final(self)@ == old(self)@ + seq![Piece::Arg(value@)],
    {
        let word: String = shell_escape(value);
        self.text.append(word.as_str());
        let ghost old_pieces = self.pieces@;
        self.pieces = Ghost(old_pieces + seq![Piece::Arg(value@)]);
        assert(self.pieces@.drop_last() =~= old_pieces);
    }

    /// Adds an option and its quoted value.
    pub fn named(&mut self, name: &str, value: &str)
        requires
            old(self).wf(),
        ensures
            final(self).wf(),
            final(self)@ == old(self)@ + named(name, value@),
    {
        self.lit(name);
        self.arg(value);
        assert(self@ =~= old(self)@ + named(name, value@));
    }

    /// Adds `text` when `on`.
    pub fn flag(&mut self, on: bool, text: &str)
        requires
            old(self).wf(),
        ensures
            final(self).wf(),
            final(self)@ == old(self)@ + flag(on, text),
    {
        if on {
            self.lit(text);
        }
        assert(self@ =~= old(self)@ + flag(on, text));
    }

    /// Adds an option and its quoted value when there is one.
    pub fn option(&mut self, name: &str, value: &Option<String>)
        requires
            old(self).wf(),
        ensures
            final(self).wf(),
            final(self)@ == old(self)@ + option(name, opt_text(*value)),
    {
        if let Some(v) = value {
            self.named(name, v.as_str());
        }
        assert(self@ =~= old(self)@ + option(name, opt_text(*value)));
    }

    /// Adds the option once for each value.
    pub fn repeated(&mut self, name: &str, values: &Vec<String>)
        requires
            old(self).wf(),
        ensures
            final(self).wf(),
            final(self)@ == old(self)@ + repeated(name, texts(values@)),
    {
        let mut i: usize = 0;
        assert(self@ =~= old(self)@ + repeated(name, texts(values@).take(0)));
        while i < values.len()
            invariant
                i <= values@.len(),
                self.wf(),
                self@ == old(self)@ + repeated(name, texts(values@).take(i as int)),
            decreases values@.len() - i,
        {
            self.named(name, values[i].as_str());
            proof {
                let next = texts(values@).take(i + 1);
                assert(next.drop_last() =~= texts(values@).take(i as int));
                assert(next.last() == values@[i as int]@);
                assert(self@ =~= old(self)@ + repeated(name, next));
            }
            i += 1;
        }
        assert(texts(values@).take(values@.len() as int) =~= texts(values@));
    }

    /// Adds the option once for each value of a list that may be absent.
    pub fn all(&mut self, name: &str, values: &Option<Vec<String>>)
        requires
            old(self).wf(),
        ensures
            final(self).wf(),
            final(self)@ == old(self)@ + repeated(name, opt_texts(*values)),
    {
        if let Some(v) = values {
            self.repeated(name, v);
        }
        assert(self@ =~= old(self)@ + repeated(name, opt_texts(*values)));
    }

    /// Adds the option once for each entry of a map that may be absent.
    pub fn settings(&mut self, name: &str, map: &Option<StringMap>)
        requires
            old(self).wf(),
        ensures
            final(self).wf(),
            final(self)@ == old(self)@ + settings(name, opt_entries(*map)),
    {
        if let Some(m) = map {
            let mut i: usize = 0;
            let n: usize = m.len();
            assert(self@ =~= old(self)@ + settings(name, m@.take(0)));
            while i < n
                invariant
                    i <= n,
                    n == m@.len(),
                    self.wf(),
                    self@ == old(self)@ + settings(name, m@.take(i as int)),
                decreases n - i,
            {
                self.named(name, m.key(i));
                self.named("=", m.value(i));
                proof {
                    let next = m@.take(i + 1);
                    assert(next.drop_last() =~= m@.take(i as int));
                    assert(next.last() == m@[i as int]);
                    assert(self@ =~= old(self)@ + settings(name, next));
                }
                i += 1;
            }
            assert(m@.take(n as int) =~= m@);
        }
        assert(self@ =~= old(self)@ + settings(name, opt_entries(*map)));
    }

    /// The finished text.
    pub fn into_text(self) -> (r: String)
        requires
            self.wf(),
        ensures
            r@ == render(self@),
    {
        self.text
    }
}

/// Where a shell stands while it reads a command line.
pub enum Mode {
    /// Outside any quotation.
    Bare,
    /// Behind a backslash outside any quotation.
    Escaped,
    /// Between single quotes.
    Single,
    /// Between double quotes.
    Double,
    /// Behind a backslash between double quotes.
    DoubleEscaped,
}

/// What a shell makes of a character that it has read.
pub enum Mark {
    /// The character is subject to splitting, expansion and the shell's grammar.
    Active,
    /// The character stands for itself.
    Literal,
}

/// The mode after one more character.
pub open spec fn next_mode(mode: Mode, c: char) -> Mode {
    match mode {
        Mode::Bare => if c == '\'' {
            Mode::Single
        } else if c == '"' {
            Mode::Double
        } else if c == '\\' {
            Mode::Escaped
        } else {
            Mode::Bare
        },
        Mode::Escaped => Mode::Bare,
        Mode::Single => if c == '\'' {
            Mode::Bare
        } else {
            Mode::Single
        },
        Mode::Double => if c == '"' {
            Mode::Bare
        } else if c == '\\' {
            Mode::DoubleEscaped
        } else {
            Mode::Double
        },
        Mode::DoubleEscaped => Mode::Double,
    }
}

/// What one more character adds to what the shell has read.
pub open spec fn step_marks(mode: Mode, c: char) -> Seq<(char, Mark)> {
    match mode {
        Mode::Bare => if c == '\'' || c == '"' || c == '\\' {
            seq![]
        } else {
            seq![(c, Mark::Active)]
        },
        Mode::Escaped => if c == '\n' {
            seq![]
        } else {
            seq![(c, Mark::Literal)]
        },
        Mode::Single => if c == '\'' {
            seq![]
        } else {
            seq![(c, Mark::Literal)]
        },
        Mode::Double => if c == '"' || c == '\\' {
            seq![]
        } else if c == '$' || c == '`' {
            seq![(c, Mark::Active)]
        } else {
            seq![(c, Mark::Literal)]
        },
        Mode::DoubleEscaped => if c == '\n' {
            seq![]
        } else if c == '$' || c == '`' || c == '"' || c == '\\' {
            seq![(c, Mark::Literal)]
        } else {
            seq![('\\', Mark::Literal), (c, Mark::Literal)]
        },
    }
}

/// The mode after `s` was read from mode `mode` on.
pub open spec fn mode_after(mode: Mode, s: Seq<char>) -> Mode
    decreases s.len(),
{
    if s.len() == 0 {
        mode
    } else {
        next_mode(mode_after(mode, s.drop_last()), s.last())
    }
}

/// What a shell makes of `s` when it reads it from mode `mode` on.
pub open spec fn marks(mode: Mode, s: Seq<char>) -> Seq<(char, Mark)>
    decreases s.len(),
{
    if s.len() == 0 {
        seq![]
    } else {
        marks(mode, s.drop_last()) + step_marks(mode_after(mode, s.drop_last()), s.last())
    }
}

/// Every character of `s` standing for itself.
pub open spec fn all_literal(s: Seq<char>) -> Seq<(char, Mark)>
    decreases s.len(),
{
    if s.len() == 0 {
        seq![]
    } else {
        all_literal(s.drop_last()).push((s.last(), Mark::Literal))
    }
}

/// Every character of `s` read as shell text.
pub open spec fn all_active(s: Seq<char>) -> Seq<(char, Mark)>
    decreases s.len(),
{
    if s.len() == 0 {
        seq![]
    } else {
        all_active(s.drop_last()).push((s.last(), Mark::Active))
    }
}

/// Neither a quote nor a backslash.
pub open spec fn is_plain(c: char) -> bool {
    c != '\'' && c != '"' && c != '\\'
}

/// Text without quotes and backslashes.
pub open spec fn plain(s: Seq<char>) -> bool {
    forall|i: int| 0 <= i < s.len() ==> is_plain(#[trigger] s[i])
}

/// All literal pieces are free of quotes and backslashes.
pub open spec fn plain_pieces(pieces: Seq<Piece>) -> bool {
    forall|i: int|
        0 <= i < pieces.len() ==> (#[trigger] pieces[i] matches Piece::Lit(s) ==> plain(s))
}

/// Two command lines with plain literal text have plain literal text when joined.
pub broadcast proof fn plain_joins(a: Seq<Piece>, b: Seq<Piece>)
    requires
        plain_pieces(a),
        plain_pieces(b),
    ensures
        #[trigger] plain_pieces(a + b),
{
    assert forall|i: int| 0 <= i < (a + b).len() implies (#[trigger] (a + b)[i] matches Piece::Lit(
        s,
    ) ==> plain(s)) by {
        if i < a.len() {
            assert((a + b)[i] == a[i]);
        } else {
            assert((a + b)[i] == b[i - a.len()]);
        }
    }
}

/// Plain text is a plain command line.
pub broadcast proof fn plain_text(s: Seq<char>)
    requires
        plain(s),
    ensures
        #[trigger] plain_pieces(seq![Piece::Lit(s)]),
{
}

/// An argument is plain whatever it holds.
pub broadcast proof fn plain_argument(s: Seq<char>)
    ensures
        #[trigger] plain_pieces(seq![Piece::Arg(s)]),
{
}

pub broadcast proof fn plain_literal(s: &str)
    requires
        plain(s@),
    ensures
        #[trigger] plain_pieces(lit(s)),
{
}

pub broadcast proof fn plain_named(name: &str, value: Seq<char>)
    requires
        plain(name@),
    ensures
        #[trigger] plain_pieces(named(name, value)),
{
}

pub broadcast proof fn plain_flag(on: bool, text: &str)
    requires
        plain(text@),
    ensures
        #[trigger] plain_pieces(flag(on, text)),
{
}

pub broadcast proof fn plain_option(name: &str, value: Option<Seq<char>>)
    requires
        plain(name@),
    ensures
        #[trigger] plain_pieces(option(name, value)),
{
}

pub broadcast proof fn plain_repeated(name: &str, values: Seq<Seq<char>>)
    requires
        plain(name@),
    ensures
        #[trigger] plain_pieces(repeated(name, values)),
    decreases values.len(),
{
    if values.len() > 0 {
        plain_repeated(name, values.drop_last());
        plain_named(name, values.last());
        plain_joins(repeated(name, values.drop_last()), named(name, values.last()));
    }
}

pub broadcast proof fn plain_settings(name: &str, entries: Seq<(Seq<char>, Seq<char>)>)
    requires
        plain(name@),
    ensures
        #[trigger] plain_pieces(settings(name, entries)),
    decreases entries.len(),
{
    if entries.len() > 0 {
        reveal_strlit("=");
        let front = settings(name, entries.drop_last());
        plain_settings(name, entries.drop_last());
        plain_named(name, entries.last().0);
        plain_named("=", entries.last().1);
        plain_joins(front, named(name, entries.last().0));
        plain_joins(front + named(name, entries.last().0), named("=", entries.last().1));
    }
}

/// A number in decimal is plain text.
pub broadcast proof fn plain_decimal(n: nat)
    ensures
        #[trigger] plain(decimal(n)),
{
    decimal_reads_back(n);
    assert forall|i: int| 0 <= i < decimal(n).len() implies is_plain(#[trigger] decimal(n)[i]) by {
        assert(is_digit(decimal(n)[i]));
    }
}

/// How command lines with plain literal text are put together from such command lines.
pub broadcast group group_plain {
    plain_joins,
    plain_text,
    plain_argument,
    plain_literal,
    plain_named,
    plain_flag,
    plain_option,
    plain_repeated,
    plain_settings,
    plain_decimal,
}

/// What a shell is meant to read in a command line: literal text is shell text, each argument is
/// one run of characters that stand for themselves.
pub open spec fn meant(pieces: Seq<Piece>) -> Seq<(char, Mark)>
    decreases pieces.len(),
{
    if pieces.len() == 0 {
        seq![]
    } else {
        meant(pieces.drop_last()) + match pieces.last() {
            Piece::Lit(s) => all_active(s),
            Piece::Arg(s) => all_literal(s),
        }
    }
}

/// Reading two texts one after the other is reading them joined.
pub proof fn reading_joins(mode: Mode, a: Seq<char>, b: Seq<char>)
    ensures
        mode_after(mode, a + b) == mode_after(mode_after(mode, a), b),
        marks(mode, a + b) == marks(mode, a) + marks(mode_after(mode, a), b),
    decreases b.len(),
{
    if b.len() == 0 {
        assert(a + b =~= a);
        assert(marks(mode, a + b) =~= marks(mode, a) + marks(mode_after(mode, a), b));
    } else {
        reading_joins(mode, a, b.drop_last());
        assert((a + b).drop_last() =~= a + b.drop_last());
        assert(marks(mode, a + b) =~= marks(mode, a) + marks(mode_after(mode, a), b));
    }
}

proof fn quoted_char_reads_back(c: char)
    ensures
        mode_after(Mode::Single, quoted_char(c)) == Mode::Single,
        marks(Mode::Single, quoted_char(c)) == seq![(c, Mark::Literal)],
{
    let s = quoted_char(c);
    reveal_with_fuel(mode_after, 5);
    reveal_with_fuel(marks, 5);
    if c == '\'' {
        assert(s.drop_last() =~= seq!['\'', '\\', '\'']);
        assert(s.drop_last().drop_last() =~= seq!['\'', '\\']);
        assert(s.drop_last().drop_last().drop_last() =~= seq!['\'']);
        assert(s.drop_last().drop_last().drop_last().drop_last() =~= seq![]);
    } else {
        assert(s.drop_last() =~= seq![]);
    }
    assert(marks(Mode::Single, s) =~= seq![(c, Mark::Literal)]);
}

proof fn quoted_body_reads_back(s: Seq<char>)
    ensures
        mode_after(Mode::Single, quoted_body(s)) == Mode::Single,
        marks(Mode::Single, quoted_body(s)) == all_literal(s),
    decreases s.len(),
{
    if s.len() == 0 {
        assert(marks(Mode::Single, quoted_body(s)) =~= all_literal(s));
    } else {
        quoted_body_reads_back(s.drop_last());
        quoted_char_reads_back(s.last());
        reading_joins(Mode::Single, quoted_body(s.drop_last()), quoted_char(s.last()));
        assert(marks(Mode::Single, quoted_body(s)) =~= all_literal(s));
    }
}

/// A shell that reads a quoted argument gets every character of it as it was, each standing for
/// itself, and is outside any quotation behind it. This holds of every text, quotes included.
pub proof fn quoted_reads_back(s: Seq<char>)
    ensures
        mode_after(Mode::Bare, quoted(s)) == Mode::Bare,
        marks(Mode::Bare, quoted(s)) == all_literal(s),
{
    let q = seq!['\''];
    assert(q.drop_last() =~= seq![]);
    reveal_with_fuel(mode_after, 2);
    reveal_with_fuel(marks, 2);
    assert(mode_after(Mode::Bare, q) == Mode::Single);
    assert(marks(Mode::Bare, q) =~= seq![]);
    assert(mode_after(Mode::Single, q) == Mode::Bare);
    assert(marks(Mode::Single, q) =~= seq![]);
    quoted_body_reads_back(s);
    reading_joins(Mode::Bare, q, quoted_body(s));
    reading_joins(Mode::Bare, q + quoted_body(s), q);
    assert(marks(Mode::Bare, quoted(s)) =~= all_literal(s));
}

proof fn plain_reads_active(s: Seq<char>)
    requires
        plain(s),
    ensures
        mode_after(Mode::Bare, s) == Mode::Bare,
        marks(Mode::Bare, s) == all_active(s),
    decreases s.len(),
{
    if s.len() > 0 {
        plain_reads_active(s.drop_last());
        assert(is_plain(s[s.len() - 1]));
    }
    assert(marks(Mode::Bare, s) =~= all_active(s));
}

/// A shell reads a command line as it is meant: no argument, whatever its characters, ends its
/// own quotation or adds shell text.
pub proof fn command_reads_as_meant(pieces: Seq<Piece>)
    requires
        plain_pieces(pieces),
    ensures
        mode_after(Mode::Bare, render(pieces)) == Mode::Bare,
        marks(Mode::Bare, render(pieces)) == meant(pieces),
    decreases pieces.len(),
{
    if pieces.len() > 0 {
        let front = pieces.drop_last();
        assert forall|i: int| 0 <= i < front.len() implies (#[trigger] front[i] matches Piece::Lit(
            s,
        ) ==> plain(s)) by {
            assert(front[i] == pieces[i]);
        }
        command_reads_as_meant(front);
        reading_joins(Mode::Bare, render(front), piece_text(pieces.last()));
        match pieces.last() {
            Piece::Lit(s) => {
                assert(pieces[pieces.len() - 1] matches Piece::Lit(t) ==> plain(t));
                plain_reads_active(s);
            },
            Piece::Arg(s) => {
                quoted_reads_back(s);
            },
        }
    }
    assert(marks(Mode::Bare, render(pieces)) =~= meant(pieces));
}

proof fn all_literal_is_injective(a: Seq<char>, b: Seq<char>)
    requires
        all_literal(a) == all_literal(b),
    ensures
        a == b,
    decreases a.len(),
{
    if a.len() > 0 && b.len() > 0 {
        let x = all_literal(a);
        let y = all_literal(b);
        assert(x.drop_last() =~= all_literal(a.drop_last()));
        assert(y.drop_last() =~= all_literal(b.drop_last()));
        assert(x.last() == (a.last(), Mark::Literal));
        assert(y.last() == (b.last(), Mark::Literal));
        all_literal_is_injective(a.drop_last(), b.drop_last());
        assert(a =~= a.drop_last().push(a.last()));
        assert(b =~= b.drop_last().push(b.last()));
    } else if a.len() > 0 {
        assert(all_literal(a).len() > 0);
    } else if b.len() > 0 {
        assert(all_literal(b).len() > 0);
    }
    assert(a =~= b);
}

/// A shell reads a command line as it is meant, and is outside any quotation behind it.
pub open spec fn reads_as_meant(pieces: Seq<Piece>) -> bool {
    &&& mode_after(Mode::Bare, render(pieces)) == Mode::Bare
    &&& marks(Mode::Bare, render(pieces)) == meant(pieces)
}

/// The part of what a shell has read that is shell text.
pub open spec fn active_text(read: Seq<(char, Mark)>) -> Seq<char>
    decreases read.len(),
{
    if read.len() == 0 {
        seq![]
    } else if read.last().1 == Mark::Active {
        active_text(read.drop_last()).push(read.last().0)
    } else {
        active_text(read.drop_last())
    }
}

/// The literal text of a command line, without the arguments.
pub open spec fn literal_text(pieces: Seq<Piece>) -> Seq<char>
    decreases pieces.len(),
{
    if pieces.len() == 0 {
        seq![]
    } else {
        literal_text(pieces.drop_last()) + match pieces.last() {
            Piece::Lit(s) => s,
            Piece::Arg(_) => seq![],
        }
    }
}

proof fn active_text_joins(a: Seq<(char, Mark)>, b: Seq<(char, Mark)>)
    ensures
        active_text(a + b) == active_text(a) + active_text(b),
    decreases b.len(),
{
    if b.len() == 0 {
        assert(a + b =~= a);
    } else {
        active_text_joins(a, b.drop_last());
        assert((a + b).drop_last() =~= a + b.drop_last());
    }
    assert(active_text(a + b) =~= active_text(a) + active_text(b));
}

proof fn active_text_of_runs(s: Seq<char>)
    ensures
        active_text(all_active(s)) == s,
        active_text(all_literal(s)) == Seq::<char>::empty(),
    decreases s.len(),
{
    if s.len() > 0 {
        active_text_of_runs(s.drop_last());
        assert(all_active(s).drop_last() =~= all_active(s.drop_last()));
        assert(all_literal(s).drop_last() =~= all_literal(s.drop_last()));
        assert(s.drop_last().push(s.last()) =~= s);
    }
    assert(active_text(all_active(s)) =~= s);
}

/// The shell text of a command line is its literal text: the arguments have no part in it.
pub proof fn arguments_stay_out_of_shell_text(pieces: Seq<Piece>)
    requires
        plain_pieces(pieces),
    ensures
        active_text(marks(Mode::Bare, render(pieces))) == literal_text(pieces),
{
    command_reads_as_meant(pieces);
    meant_has_literal_text(pieces);
}

proof fn meant_has_literal_text(pieces: Seq<Piece>)
    ensures
        active_text(meant(pieces)) == literal_text(pieces),
    decreases pieces.len(),
{
    if pieces.len() > 0 {
        meant_has_literal_text(pieces.drop_last());
        match pieces.last() {
            Piece::Lit(s) => {
                active_text_of_runs(s);
                active_text_joins(meant(pieces.drop_last()), all_active(s));
            },
            Piece::Arg(s) => {
                active_text_of_runs(s);
                active_text_joins(meant(pieces.drop_last()), all_literal(s));
            },
        }
    }
    assert(active_text(meant(pieces)) =~= literal_text(pieces));
}

/// The literal text of two command lines joined is that of the one and then that of the other.
pub broadcast proof fn literal_text_joins(a: Seq<Piece>, b: Seq<Piece>)
    ensures
        #[trigger] literal_text(a + b) == literal_text(a) + literal_text(b),
    decreases b.len(),
{
    if b.len() == 0 {
        assert(a + b =~= a);
    } else {
        literal_text_joins(a, b.drop_last());
        assert((a + b).drop_last() =~= a + b.drop_last());
    }
    assert(literal_text(a + b) =~= literal_text(a) + literal_text(b));
}

/// An argument adds nothing to the literal text of an option.
pub broadcast proof fn literal_text_of_named(name: &str, value: Seq<char>)
    ensures
        #[trigger] literal_text(named(name, value)) == name@,
{
    let pieces = named(name, value);
    assert(pieces.drop_last() =~= lit(name));
    assert(lit(name).drop_last() =~= Seq::<Piece>::empty());
    reveal_with_fuel(literal_text, 3);
    assert(literal_text(pieces) =~= name@);
}

/// The text of two command lines joined is that of the one and then that of the other.
pub proof fn render_joins(a: Seq<Piece>, b: Seq<Piece>)
    ensures
        render(a + b) == render(a) + render(b),
    decreases b.len(),
{
    if b.len() == 0 {
        assert(a + b =~= a);
    } else {
        render_joins(a, b.drop_last());
        assert((a + b).drop_last() =~= a + b.drop_last());
    }
    assert(render(a + b) =~= render(a) + render(b));
}

/// A program that a caller names in place of the one that is found is free of quotes and
/// backslashes.
pub open spec fn plain_bin(bin: Option<String>) -> bool {
    bin matches Some(b) ==> plain(b@)
}

/// A character that has a meaning to the shell outside quotations.
pub open spec fn is_special(c: char) -> bool {
    ||| c == ' ' || c == '\t' || c == '\n' || c == ';' || c == '&' || c == '|' || c == '<'
    ||| c == '>' || c == '(' || c == ')' || c == '$' || c == '`' || c == '\\' || c == '"'
    ||| c == '\'' || c == '*' || c == '?' || c == '[' || c == ']' || c == '#' || c == '!'
    ||| c == '{' || c == '}' || c == '~'
}

/// Text without a character that has a meaning to the shell: it stands for itself without quotes.
pub open spec fn inert(s: Seq<char>) -> bool {
    forall|i: int| 0 <= i < s.len() ==> !is_special(#[trigger] s[i])
}

/// Two texts that are quoted alike are the same text.
pub proof fn quoting_is_injective(a: Seq<char>, b: Seq<char>)
    requires
        quoted(a) == quoted(b),
    ensures
        a == b,
{
    quoted_reads_back(a);
    quoted_reads_back(b);
    all_literal_is_injective(a, b);
}

} // verus!
