//! The words that a shell reads in a command.
//!
//! A word is what the shell hands to a program as one argument. Each of its characters is either
//! shell text or stands for itself, see [`Mark`].
use crate::shell::{
    all_active, all_literal, command_reads_as_meant, flag, group_plain, is_plain, lit, mode_after,
    named, next_mode, opt_entries, opt_texts, option, piece_text, plain, plain_joins, plain_named,
    plain_pieces, plain_repeated, plain_settings, quoted, quoted_reads_back, render, render_joins,
    repeated, settings, step_marks, Mark, Mode, Piece,
};
use crate::string_map::StringMap;
use crate::text::{decimal, decimal_reads_back, is_digit};
use vstd::prelude::*;

verus! {

/// What a shell has read of a command: the words, the last of which may still go on.
pub struct Reading {
    pub mode: Mode,
    pub words: Seq<Seq<(char, Mark)>>,
    /// The last word goes on.
    pub inside: bool,
}

/// A character that ends a word where it stands outside any quotation.
pub open spec fn separates(c: char) -> bool {
    c == ' ' || c == '\t' || c == '\n' || c == ';'
}

/// What has been read after one more character. A semicolon is a word of its own.
pub open spec fn read_char(r: Reading, c: char) -> Reading {
    if r.mode == Mode::Bare && c == ';' {
        Reading {
            mode: Mode::Bare,
            words: r.words.push(seq![(c, Mark::Active)]),
            inside: false,
        }
    } else if r.mode == Mode::Bare && separates(c) {
        Reading { mode: Mode::Bare, words: r.words, inside: false }
    } else {
        let added = step_marks(r.mode, c);
        Reading {
            mode: next_mode(r.mode, c),
            words: if r.inside {
                r.words.drop_last().push(r.words.last() + added)
            } else {
                r.words.push(added)
            },
            inside: true,
        }
    }
}

/// What has been read after `s`.
pub open spec fn read_text(r: Reading, s: Seq<char>) -> Reading
    decreases s.len(),
{
    if s.len() == 0 {
        r
    } else {
        read_char(read_text(r, s.drop_last()), s.last())
    }
}

/// Nothing has been read.
pub open spec fn unread() -> Reading {
    Reading { mode: Mode::Bare, words: seq![], inside: false }
}

/// The words that a shell reads in a command.
#[verifier::opaque]
pub open spec fn words(s: Seq<char>) -> Seq<Seq<(char, Mark)>> {
    read_text(unread(), s).words
}

/// A word of shell text.
pub open spec fn word(s: &str) -> Seq<(char, Mark)> {
    all_active(s@)
}

/// A word, or a part of one, in which every character stands for itself.
pub open spec fn arg(s: Seq<char>) -> Seq<(char, Mark)> {
    all_literal(s)
}

/// The word where `on` holds.
pub open spec fn switch(on: bool, s: &str) -> Seq<Seq<(char, Mark)>> {
    if on {
        seq![word(s)]
    } else {
        seq![]
    }
}

/// The word `name` and the value as the word behind it.
pub open spec fn said(name: &str, value: Seq<char>) -> Seq<Seq<(char, Mark)>> {
    seq![word(name)].push(arg(value))
}

/// The word `name` and the value as the word behind it, where there is a value.
pub open spec fn pair(name: &str, value: Option<String>) -> Seq<Seq<(char, Mark)>> {
    match value {
        Some(v) => said(name, v@),
        None => seq![],
    }
}

/// One word of `name` and the value, where there is a value.
pub open spec fn joint(name: &str, value: Option<String>) -> Seq<Seq<(char, Mark)>> {
    match value {
        Some(v) => seq![word(name) + arg(v@)],
        None => seq![],
    }
}

/// The values, each as the word behind a word `name`.
pub open spec fn pairs(name: &str, values: Option<Vec<String>>) -> Seq<Seq<(char, Mark)>> {
    match values {
        Some(v) => Seq::new(
            2 * v@.len(),
            |i: int|
                if i % 2 == 0 {
                    word(name)
                } else {
                    arg(v@[i / 2]@)
                },
        ),
        None => seq![],
    }
}

/// The entries of a map in their order, each as one word `key=value` behind a word `name`.
pub open spec fn assignments(name: &str, map: Option<StringMap>) -> Seq<Seq<(char, Mark)>> {
    match map {
        Some(m) => Seq::new(
            2 * m@.len(),
            |i: int|
                if i % 2 == 0 {
                    word(name)
                } else {
                    arg(m@[i / 2].0) + word("=") + arg(m@[i / 2].1)
                },
        ),
        None => seq![],
    }
}

/// The words of two runs of text between which no word ends.
pub open spec fn glued(a: Seq<Seq<(char, Mark)>>, b: Seq<Seq<(char, Mark)>>) -> Seq<
    Seq<(char, Mark)>,
> {
    a.drop_last().push(a.last() + b[0]) + b.skip(1)
}

proof fn reading_goes_on(r: Reading, a: Seq<char>, b: Seq<char>)
    ensures
        read_text(r, a + b) == read_text(read_text(r, a), b),
    decreases b.len(),
{
    if b.len() == 0 {
        assert(a + b =~= a);
    } else {
        reading_goes_on(r, a, b.drop_last());
        assert((a + b).drop_last() =~= a + b.drop_last());
    }
}

proof fn mode_is_that_of_the_text(r: Reading, s: Seq<char>)
    ensures
        read_text(r, s).mode == mode_after(r.mode, s),
    decreases s.len(),
{
    if s.len() > 0 {
        mode_is_that_of_the_text(r, s.drop_last());
    }
}

/// Text that starts a new word, or none.
pub open spec fn apart(s: Seq<char>) -> bool {
    s.len() == 0 || separates(s[0])
}

proof fn reading_is_shifted(r: Reading, s: Seq<char>)
    requires
        r.mode == Mode::Bare,
        r.inside ==> r.words.len() > 0,
    ensures
        ({
            let alone = read_text(unread(), s);
            let after = read_text(r, s);
            &&& after.mode == alone.mode
            &&& s.len() > 0 ==> after.inside == alone.inside
            &&& alone.inside ==> alone.words.len() > 0
            &&& s.len() > 0 && !separates(s[0]) ==> alone.words.len() > 0
            &&& after.words == (if r.inside && s.len() > 0 && !separates(s[0]) {
                glued(r.words, alone.words)
            } else {
                r.words + alone.words
            })
        }),
    decreases s.len(),
{
    let alone = read_text(unread(), s);
    let after = read_text(r, s);
    if s.len() == 0 {
        assert(after.words =~= r.words + alone.words);
    } else {
        let front = s.drop_last();
        reading_is_shifted(r, front);
        if front.len() > 0 {
            assert(front[0] == s[0]);
        }
        let before_alone = read_text(unread(), front);
        let before = read_text(r, front);
        if r.inside && !separates(s[0]) {
            if front.len() == 0 {
                assert(alone.words =~= seq![step_marks(Mode::Bare, s.last())]);
                assert(after.words =~= glued(r.words, alone.words));
            } else {
                let added = step_marks(before.mode, s.last());
                if before_alone.words.len() == 1 {
                    assert(r.words.last() + before_alone.words[0] + added =~= r.words.last() + (
                    before_alone.words[0] + added));
                }
                assert(alone.words.len() > 0);
                assert forall|i: int| 0 <= i < after.words.len() implies #[trigger] after.words[i]
                    == glued(r.words, alone.words)[i] by {}
                assert(after.words =~= glued(r.words, alone.words));
            }
        } else {
            assert(after.words =~= r.words + alone.words);
        }
    }
}

proof fn settled_is_outside(s: Seq<char>)
    requires
        mode_after(Mode::Bare, s) == Mode::Bare,
        s.len() > 0,
        mode_after(Mode::Bare, s.drop_last()) == Mode::Bare,
    ensures
        read_text(unread(), s).inside == !separates(s.last()),
{
    mode_is_that_of_the_text(unread(), s.drop_last());
}

/// Two runs of text with the end of a word between them have the words of the one and then those
/// of the other.
pub proof fn words_join(a: Seq<char>, b: Seq<char>)
    requires
        mode_after(Mode::Bare, a) == Mode::Bare,
        apart(b) || !read_text(unread(), a).inside,
    ensures
        words(a + b) == words(a) + words(b),
{
    reveal(words);
    reading_goes_on(unread(), a, b);
    mode_is_that_of_the_text(unread(), a);
    reading_is_shifted(unread(), a);
    reading_is_shifted(read_text(unread(), a), b);
}

/// Two runs of text with no end of a word between them share the word that goes on.
pub proof fn words_glue(a: Seq<char>, b: Seq<char>)
    requires
        mode_after(Mode::Bare, a) == Mode::Bare,
        read_text(unread(), a).inside,
        b.len() > 0,
        !separates(b[0]),
    ensures
        words(a + b) == glued(words(a), words(b)),
{
    reveal(words);
    reading_goes_on(unread(), a, b);
    mode_is_that_of_the_text(unread(), a);
    reading_is_shifted(unread(), a);
    reading_is_shifted(read_text(unread(), a), b);
}

/// A shell that has read `s` is between two words.
#[verifier::opaque]
pub open spec fn outside(s: Seq<char>) -> bool {
    !read_text(unread(), s).inside
}

/// Text that is one word of shell text: it holds neither quotes nor the end of a word.
pub open spec fn clean(s: Seq<char>) -> bool {
    s.len() > 0 && forall|i: int|
        0 <= i < s.len() ==> is_plain(#[trigger] s[i]) && !separates(s[i])
}

proof fn clean_reads_as_one(s: Seq<char>)
    requires
        clean(s),
    ensures
        read_text(unread(), s) == (Reading {
            mode: Mode::Bare,
            words: seq![all_active(s)],
            inside: true,
        }),
    decreases s.len(),
{
    let front = s.drop_last();
    assert(is_plain(s[s.len() - 1]) && !separates(s[s.len() - 1]));
    if front.len() == 0 {
        assert(front =~= Seq::<char>::empty());
        assert(all_active(front) =~= seq![]);
        assert(read_text(unread(), s).words =~= seq![all_active(s)]);
    } else {
        assert forall|i: int| 0 <= i < front.len() implies is_plain(#[trigger] front[i])
            && !separates(front[i]) by {
            assert(front[i] == s[i]);
        }
        clean_reads_as_one(front);
        let added = step_marks(Mode::Bare, s.last());
        assert(added =~= seq![(s.last(), Mark::Active)]);
        assert(all_active(front) + added =~= all_active(s));
        let before = read_text(unread(), front);
        assert(before.words.last() == all_active(front));
        assert(read_text(unread(), s) == read_char(before, s.last()));
        assert(read_char(before, s.last()).words =~= seq![all_active(s)]);
    }
}

/// Clean text is one word.
pub proof fn clean_is_one_word(s: Seq<char>)
    requires
        clean(s),
    ensures
        words(s) == seq![all_active(s)],
        !outside(s),
        plain(s),
        !apart(s),
{
    reveal(words);
    reveal(outside);
    clean_reads_as_one(s);
    assert(is_plain(s[0]) && !separates(s[0]));
}

proof fn quoted_char_goes_on(r: Reading, c: char)
    requires
        r.mode == Mode::Single,
        r.inside,
        r.words.len() > 0,
    ensures
        read_text(r, crate::shell::quoted_char(c)) == (Reading {
            mode: Mode::Single,
            words: r.words.drop_last().push(r.words.last().push((c, Mark::Literal))),
            inside: true,
        }),
{
    let s = crate::shell::quoted_char(c);
    reveal_with_fuel(read_text, 5);
    let want = r.words.drop_last().push(r.words.last().push((c, Mark::Literal)));
    if c == '\'' {
        assert(s.drop_last() =~= seq!['\'', '\\', '\'']);
        assert(s.drop_last().drop_last() =~= seq!['\'', '\\']);
        assert(s.drop_last().drop_last().drop_last() =~= seq!['\'']);
        assert(s.drop_last().drop_last().drop_last().drop_last() =~= seq![]);
        let a = read_char(r, '\'');
        assert(r.words.last() + Seq::<(char, Mark)>::empty() =~= r.words.last());
        assert(a.words =~= r.words);
        let b = read_char(a, '\\');
        assert(b.words =~= r.words);
        let d = read_char(b, '\'');
        assert(r.words.last() + seq![(c, Mark::Literal)] =~= r.words.last().push(
            (c, Mark::Literal),
        ));
        assert(d.words =~= want);
        let e = read_char(d, '\'');
        assert(want.last() + Seq::<(char, Mark)>::empty() =~= want.last());
        assert(e.words =~= want);
        assert(read_text(r, s) == e);
    } else {
        assert(s.drop_last() =~= seq![]);
        assert(r.words.last() + seq![(c, Mark::Literal)] =~= r.words.last().push(
            (c, Mark::Literal),
        ));
        assert(read_text(r, s).words =~= want);
    }
}

proof fn quoted_body_goes_on(r: Reading, s: Seq<char>)
    requires
        r.mode == Mode::Single,
        r.inside,
        r.words.len() > 0,
    ensures
        read_text(r, crate::shell::quoted_body(s)) == (Reading {
            mode: Mode::Single,
            words: r.words.drop_last().push(r.words.last() + all_literal(s)),
            inside: true,
        }),
    decreases s.len(),
{
    if s.len() == 0 {
        assert(r.words.last() + all_literal(s) =~= r.words.last());
        assert(r.words.drop_last().push(r.words.last()) =~= r.words);
    } else {
        let front = crate::shell::quoted_body(s.drop_last());
        quoted_body_goes_on(r, s.drop_last());
        let mid = read_text(r, front);
        quoted_char_goes_on(mid, s.last());
        reading_goes_on(r, front, crate::shell::quoted_char(s.last()));
        assert((r.words.last() + all_literal(s.drop_last())).push((s.last(), Mark::Literal))
            =~= r.words.last() + all_literal(s));
        assert(mid.words.drop_last() =~= r.words.drop_last());
    }
}

/// A quoted argument is one word, whatever its characters are, and also where it is empty.
pub proof fn quoted_is_one_word(s: Seq<char>)
    ensures
        words(quoted(s)) == seq![arg(s)],
        !outside(quoted(s)),
        !apart(quoted(s)),
        mode_after(Mode::Bare, quoted(s)) == Mode::Bare,
{
    reveal(words);
    reveal(outside);
    let q = seq!['\''];
    let opened = Reading { mode: Mode::Single, words: seq![seq![]], inside: true };
    assert(q.drop_last() =~= seq![]);
    reveal_with_fuel(read_text, 2);
    assert(read_text(unread(), q).words =~= opened.words);
    assert(read_text(unread(), q) == opened);
    reading_goes_on(unread(), q, crate::shell::quoted_body(s));
    quoted_body_goes_on(opened, s);
    let body = read_text(opened, crate::shell::quoted_body(s));
    assert(Seq::<(char, Mark)>::empty() + all_literal(s) =~= all_literal(s));
    assert(body.words =~= seq![all_literal(s)]);
    reading_goes_on(unread(), q + crate::shell::quoted_body(s), q);
    assert(all_literal(s) + Seq::<(char, Mark)>::empty() =~= all_literal(s));
    assert(read_text(body, q) == read_char(body, '\''));
    assert(read_char(body, '\'').words =~= seq![all_literal(s)]);
    quoted_reads_back(s);
    assert(quoted(s)[0] == '\'');
}

/// A blank adds no word.
pub proof fn blank_adds_no_word(s: Seq<char>)
    requires
        plain(s),
    ensures
        words(s + seq![' ']) == words(s),
        outside(s + seq![' ']),
        plain(s + seq![' ']),
{
    reveal(words);
    reveal(outside);
    let all = s + seq![' '];
    assert(all.drop_last() =~= s);
    plain_stays_bare(s);
    mode_is_that_of_the_text(unread(), s);
    assert forall|i: int| 0 <= i < all.len() implies is_plain(#[trigger] all[i]) by {
        if i < s.len() {
            assert(all[i] == s[i]);
        }
    }
}

pub proof fn plain_stays_bare(s: Seq<char>)
    requires
        plain(s),
    ensures
        mode_after(Mode::Bare, s) == Mode::Bare,
    decreases s.len(),
{
    if s.len() > 0 {
        assert forall|i: int| 0 <= i < s.drop_last().len() implies is_plain(
            #[trigger] s.drop_last()[i],
        ) by {
            assert(s.drop_last()[i] == s[i]);
        }
        plain_stays_bare(s.drop_last());
        assert(is_plain(s[s.len() - 1]));
    }
}

/// Clean text behind the end of a word is one more word.
pub proof fn clean_adds_a_word(s: Seq<char>, w: Seq<char>)
    requires
        plain(s),
        outside(s),
        clean(w),
    ensures
        words(s + w) == words(s).push(all_active(w)),
        !outside(s + w),
        plain(s + w),
{
    plain_stays_bare(s);
    clean_is_one_word(w);
    reveal(outside);
    words_join(s, w);
    assert(words(s) + seq![all_active(w)] =~= words(s).push(all_active(w)));
    reading_goes_on(unread(), s, w);
    mode_is_that_of_the_text(unread(), s);
    reading_is_shifted(unread(), s);
    reading_is_shifted(read_text(unread(), s), w);
    assert forall|i: int| 0 <= i < (s + w).len() implies is_plain(#[trigger] (s + w)[i]) by {
        if i < s.len() {
            assert((s + w)[i] == s[i]);
        } else {
            assert((s + w)[i] == w[i - s.len()]);
        }
    }
}

pub proof fn nothing_has_no_words()
    ensures
        words(Seq::<char>::empty()) == Seq::<Seq<(char, Mark)>>::empty(),
        outside(Seq::<char>::empty()),
        plain(Seq::<char>::empty()),
{
    reveal(words);
    reveal(outside);
}

/// Literal text that starts a new word and holds no quotes, and whether it ends between words.
pub open spec fn starts(s: &str, ends: bool) -> bool {
    &&& plain(s@)
    &&& s@.len() > 0
    &&& apart(s@)
    &&& outside(s@) == ends
}

/// How literal text reads: its words, and whether it ends between words.
pub open spec fn reads(s: &str, w: Seq<Seq<(char, Mark)>>, ends: bool) -> bool {
    words(s@) == w && starts(s, ends)
}

/// Text without quotes ends between words exactly where its last character ends a word.
pub proof fn text_starts(s: &str)
    requires
        plain(s@),
        s@.len() > 0,
        separates(s@[0]),
    ensures
        starts(s, separates(s@.last())),
{
    text_ends(s);
}

/// A blank and a name, with a blank at the end where `ends` holds, read as the name.
pub proof fn name_reads(s: &str, name: &str, ends: bool)
    requires
        s@ =~= seq![' '] + name@ + (if ends {
            seq![' ']
        } else {
            seq![]
        }),
        clean(name@),
    ensures
        reads(s, seq![word(name)], ends),
{
    nothing_has_no_words();
    let e = Seq::<char>::empty();
    let bare = seq![' '] + name@;
    blank_adds_no_word(e);
    assert(e + seq![' '] =~= seq![' ']);
    clean_adds_a_word(seq![' '], name@);
    assert(words(bare) =~= seq![word(name)]);
    if ends {
        blank_adds_no_word(bare);
    } else {
        assert(s@ =~= bare);
    }
    assert(s@[0] == ' ');
}

/// A blank alone reads as no word.
pub proof fn blank_reads(s: &str)
    requires
        s@ =~= seq![' '],
    ensures
        reads(s, seq![], true),
{
    nothing_has_no_words();
    let e = Seq::<char>::empty();
    blank_adds_no_word(e);
    assert(e + seq![' '] =~= seq![' ']);
}

/// The empty command line has no words.
pub broadcast proof fn words_of_nothing(p: Seq<Piece>)
    requires
        p.len() == 0,
    ensures
        #[trigger] words(render(p)) == Seq::<Seq<(char, Mark)>>::empty(),
        apart(render(p)),
{
    nothing_has_no_words();
    assert(render(p) =~= Seq::<char>::empty());
}

/// The words of two command lines joined, the second of which starts a new word.
pub broadcast proof fn words_of_joined(a: Seq<Piece>, b: Seq<Piece>)
    requires
        plain_pieces(a),
        apart(render(b)) || outside(render(a)),
    ensures
        #[trigger] words(render(a + b)) == words(render(a)) + words(render(b)),
{
    reveal(outside);
    render_joins(a, b);
    command_reads_as_meant(a);
    words_join(render(a), render(b));
}

pub broadcast proof fn joined_stays_apart(a: Seq<Piece>, b: Seq<Piece>)
    requires
        apart(render(a)),
        apart(render(b)),
    ensures
        #[trigger] apart(render(a + b)),
{
    render_joins(a, b);
    if render(a).len() > 0 {
        assert(render(a + b)[0] == render(a)[0]);
    } else {
        assert(render(a + b) =~= render(b));
    }
}

proof fn one_piece(p: Piece)
    ensures
        render(seq![p]) == piece_text(p),
{
    let pieces = seq![p];
    assert(pieces.drop_last() =~= Seq::<Piece>::empty());
    assert(render(pieces.drop_last()) =~= seq![]);
    assert(render(pieces) =~= piece_text(p));
}

/// The words of literal text.
pub broadcast proof fn words_of_lit(s: &str)
    ensures
        #[trigger] words(render(lit(s))) == words(s@),
        apart(render(lit(s))) == apart(s@),
        outside(render(lit(s))) == outside(s@),
{
    one_piece(Piece::Lit(s@));
}

pub broadcast proof fn words_of_argument(v: Seq<char>)
    ensures
        #[trigger] words(render(seq![Piece::Arg(v)])) == seq![arg(v)],
{
    one_piece(Piece::Arg(v));
    quoted_is_one_word(v);
}

/// The words of shell text.
pub broadcast proof fn words_of_text(s: Seq<char>)
    ensures
        #[trigger] words(render(seq![Piece::Lit(s)])) == words(s),
        apart(render(seq![Piece::Lit(s)])) == apart(s),
        outside(render(seq![Piece::Lit(s)])) == outside(s),
{
    one_piece(Piece::Lit(s));
}

/// The words of the program that a command runs: the one that the caller names, or else the one
/// that is found.
pub open spec fn program(bin: Option<String>, found: &str) -> Seq<Seq<(char, Mark)>> {
    match bin {
        Some(b) => words(b@),
        None => words(found@),
    }
}

/// The words of a flag.
pub broadcast proof fn words_of_flag(on: bool, s: &str)
    ensures
        #[trigger] words(render(flag(on, s))) == (if on {
            words(s@)
        } else {
            seq![]
        }),
        apart(s@) ==> apart(render(flag(on, s))),
{
    words_of_lit(s);
    words_of_nothing(seq![]);
}

/// The words of an option: the value is a word behind the name where the name ends with a blank,
/// and ends the name's word otherwise.
pub broadcast proof fn words_of_named(name: &str, v: Seq<char>)
    requires
        plain(name@),
    ensures
        outside(name@) ==> #[trigger] words(render(named(name, v))) == words(name@).push(arg(v)),
        !outside(name@) && words(name@).len() == 1 ==> words(render(named(name, v))) == seq![
            words(name@)[0] + arg(v),
        ],
        name@.len() > 0 && apart(name@) ==> apart(render(named(name, v))),
        !outside(render(named(name, v))),
{
    reveal(outside);
    let a = lit(name);
    let b = seq![Piece::Arg(v)];
    assert(named(name, v) =~= a + b);
    render_joins(a, b);
    one_piece(Piece::Lit(name@));
    one_piece(Piece::Arg(v));
    plain_stays_bare(name@);
    quoted_is_one_word(v);
    if outside(name@) {
        words_join(name@, quoted(v));
        assert(words(name@) + seq![arg(v)] =~= words(name@).push(arg(v)));
    } else {
        words_glue(name@, quoted(v));
        if words(name@).len() == 1 {
            assert(glued(words(name@), seq![arg(v)]) =~= seq![words(name@)[0] + arg(v)]);
        }
    }
    if name@.len() > 0 {
        assert((name@ + quoted(v))[0] == name@[0]);
    }
    reading_goes_on(unread(), name@, quoted(v));
    mode_is_that_of_the_text(unread(), name@);
    reading_is_shifted(unread(), name@);
    reading_is_shifted(read_text(unread(), name@), quoted(v));
}

/// An argument that is tied to a name ends the name's last word.
pub proof fn glued_argument(name: &str, v: Seq<char>)
    requires
        plain(name@),
        !outside(name@),
    ensures
        words(render(named(name, v))) == glued(words(name@), seq![arg(v)]),
{
    reveal(outside);
    let a = lit(name);
    let b = seq![Piece::Arg(v)];
    assert(named(name, v) =~= a + b);
    render_joins(a, b);
    one_piece(Piece::Lit(name@));
    one_piece(Piece::Arg(v));
    plain_stays_bare(name@);
    quoted_is_one_word(v);
    words_glue(name@, quoted(v));
}

/// An argument that is tied to shell text ends the text's last word.
pub proof fn glued_to_text(s: Seq<char>, v: Seq<char>)
    requires
        plain(s),
        !outside(s),
    ensures
        words(render(seq![Piece::Lit(s), Piece::Arg(v)])) == glued(words(s), seq![arg(v)]),
{
    reveal(outside);
    let a = seq![Piece::Lit(s)];
    let b = seq![Piece::Arg(v)];
    assert(seq![Piece::Lit(s), Piece::Arg(v)] =~= a + b);
    render_joins(a, b);
    one_piece(Piece::Lit(s));
    one_piece(Piece::Arg(v));
    plain_stays_bare(s);
    quoted_is_one_word(v);
    words_glue(s, quoted(v));
}

/// A clean word that is tied to a name ends the name's last word.
pub proof fn glued_text(name: &str, s: Seq<char>)
    requires
        plain(name@),
        name@.len() > 0,
        !outside(name@),
        clean(s),
    ensures
        words(render(lit(name) + seq![Piece::Lit(s)])) == glued(words(name@), seq![all_active(s)]),
        apart(render(lit(name) + seq![Piece::Lit(s)])) == apart(name@),
{
    reveal(outside);
    let a = lit(name);
    let b = seq![Piece::Lit(s)];
    render_joins(a, b);
    one_piece(Piece::Lit(name@));
    one_piece(Piece::Lit(s));
    plain_stays_bare(name@);
    clean_is_one_word(s);
    words_glue(name@, s);
    assert(render(a + b)[0] == name@[0]);
}

pub proof fn text_renders(s: &str)
    ensures
        render(lit(s)) == s@,
{
    one_piece(Piece::Lit(s@));
}

pub proof fn piece_renders(p: Piece)
    ensures
        render(seq![p]) == piece_text(p),
{
    one_piece(p);
}

/// Shell text joined is read as the one and then the other.
pub proof fn active_joins(a: Seq<char>, b: Seq<char>)
    ensures
        all_active(a + b) == all_active(a) + all_active(b),
    decreases b.len(),
{
    if b.len() == 0 {
        assert(a + b =~= a);
    } else {
        active_joins(a, b.drop_last());
        assert((a + b).drop_last() =~= a + b.drop_last());
    }
    assert(all_active(a + b) =~= all_active(a) + all_active(b));
}

/// The words of an option that may be absent.
pub broadcast proof fn words_of_option(name: &str, v: Option<Seq<char>>)
    ensures
        #[trigger] words(render(option(name, v))) == (match v {
            Some(x) => words(render(named(name, x))),
            None => seq![],
        }),
        plain(name@) && name@.len() > 0 && apart(name@) ==> apart(render(option(name, v))),
{
    words_of_nothing(seq![]);
    if plain(name@) && name@.len() > 0 && apart(name@) {
        if let Some(x) = v {
            words_of_named(name, x);
        }
    }
}

pub broadcast proof fn nothing_is_apart(p: Seq<Piece>)
    requires
        p.len() == 0,
    ensures
        #[trigger] apart(render(p)),
{
    words_of_nothing(p);
}

pub broadcast proof fn text_is_apart(s: Seq<char>)
    ensures
        #[trigger] apart(render(seq![Piece::Lit(s)])) == apart(s),
{
    words_of_text(s);
}

pub broadcast proof fn text_is_outside(s: Seq<char>)
    ensures
        #[trigger] outside(render(seq![Piece::Lit(s)])) == outside(s),
{
    words_of_text(s);
}

pub broadcast proof fn lit_is_apart(s: &str)
    ensures
        #[trigger] apart(render(lit(s))) == apart(s@),
{
    words_of_lit(s);
}

pub broadcast proof fn lit_is_outside(s: &str)
    ensures
        #[trigger] outside(render(lit(s))) == outside(s@),
{
    words_of_lit(s);
}

pub broadcast proof fn flag_is_apart(on: bool, s: &str)
    requires
        apart(s@),
    ensures
        #[trigger] apart(render(flag(on, s))),
{
    words_of_flag(on, s);
}

pub broadcast proof fn named_is_apart(name: &str, v: Seq<char>)
    requires
        plain(name@),
        name@.len() > 0,
        apart(name@),
    ensures
        #[trigger] apart(render(named(name, v))),
{
    words_of_named(name, v);
}

pub broadcast proof fn option_is_apart(name: &str, v: Option<Seq<char>>)
    requires
        plain(name@),
        name@.len() > 0,
        apart(name@),
    ensures
        #[trigger] apart(render(option(name, v))),
{
    words_of_option(name, v);
}

/// A command line ends between words where the text at its end does.
pub broadcast proof fn ends_as_its_text(a: Seq<Piece>, s: &str)
    requires
        plain_pieces(a),
        s@.len() > 0,
    ensures
        #[trigger] outside(render(a + lit(s))) == outside(s@),
{
    reveal(outside);
    render_joins(a, lit(s));
    one_piece(Piece::Lit(s@));
    command_reads_as_meant(a);
    reading_goes_on(unread(), render(a), s@);
    mode_is_that_of_the_text(unread(), render(a));
    reading_is_shifted(unread(), render(a));
    reading_is_shifted(read_text(unread(), render(a)), s@);
}

/// What holds of command lines that are put together from smaller ones.
pub broadcast group group_words {
    words_of_nothing,
    words_of_joined,
    joined_stays_apart,
    words_of_lit,
    words_of_text,
    words_of_flag,
    words_of_named,
    words_of_option,
    ends_as_its_text,
    nothing_is_apart,
    text_is_apart,
    text_is_outside,
    lit_is_apart,
    lit_is_outside,
    flag_is_apart,
    named_is_apart,
    option_is_apart,
}

/// Values of which each is a word of its own.
pub open spec fn list(values: Option<Vec<String>>) -> Seq<Seq<(char, Mark)>> {
    match values {
        Some(v) => Seq::new(v@.len(), |i: int| arg(v@[i]@)),
        None => seq![],
    }
}

/// Values of which each ends a word that starts with `name`.
pub open spec fn joints(name: &str, values: Seq<Seq<char>>) -> Seq<Seq<(char, Mark)>> {
    Seq::new(values.len(), |i: int| word(name) + arg(values[i]))
}

proof fn repeated_pairs(text: &str, name: &str, values: Seq<Seq<char>>)
    requires
        reads(text, seq![word(name)], true),
    ensures
        words(render(repeated(text, values))) == Seq::new(
            2 * values.len(),
            |i: int|
                if i % 2 == 0 {
                    word(name)
                } else {
                    arg(values[i / 2])
                },
        ),
        apart(render(repeated(text, values))),
    decreases values.len(),
{
    broadcast use group_words;

    let want = Seq::new(
        2 * values.len(),
        |i: int|
            if i % 2 == 0 {
                word(name)
            } else {
                arg(values[i / 2])
            },
    );
    if values.len() > 0 {
        repeated_pairs(text, name, values.drop_last());
        plain_repeated(text, values.drop_last());
        let front = repeated(text, values.drop_last());
        let last = named(text, values.last());
        assert(words(render(front + last)) == words(render(front)) + words(render(last)));
        assert(words(render(last)) =~= seq![word(name), arg(values.last())]);
        assert forall|i: int| 0 <= i < want.len() implies (words(render(front)) + seq![
            word(name),
            arg(values.last()),
        ])[i] == #[trigger] want[i] by {
            if i < 2 * (values.len() - 1) {
                assert(values.drop_last()[i / 2] == values[i / 2]);
            }
        }
        assert(words(render(repeated(text, values))) =~= want);
    } else {
        assert(words(render(repeated(text, values))) =~= want);
    }
}

/// A list of values is read as the values, each behind the name.
pub proof fn pairs_read(text: &str, name: &str, values: Option<Vec<String>>)
    requires
        reads(text, seq![word(name)], true),
    ensures
        words(render(repeated(text, opt_texts(values)))) == pairs(name, values),
        apart(render(repeated(text, opt_texts(values)))),
        plain_pieces(repeated(text, opt_texts(values))),
{
    repeated_pairs(text, name, opt_texts(values));
    plain_repeated(text, opt_texts(values));
    assert(words(render(repeated(text, opt_texts(values)))) =~= pairs(name, values));
}

proof fn repeated_list(text: &str, values: Seq<Seq<char>>)
    requires
        reads(text, seq![], true),
    ensures
        words(render(repeated(text, values))) == Seq::new(values.len(), |i: int| arg(values[i])),
        apart(render(repeated(text, values))),
    decreases values.len(),
{
    broadcast use group_words;

    let want = Seq::new(values.len(), |i: int| arg(values[i]));
    if values.len() > 0 {
        repeated_list(text, values.drop_last());
        plain_repeated(text, values.drop_last());
        let front = repeated(text, values.drop_last());
        let last = named(text, values.last());
        assert(words(render(front + last)) == words(render(front)) + words(render(last)));
        assert(words(render(last)) =~= seq![arg(values.last())]);
    }
    assert(words(render(repeated(text, values))) =~= want);
}

/// A list of values without a name is read as the values.
pub proof fn list_reads(text: &str, values: Option<Vec<String>>)
    requires
        reads(text, seq![], true),
    ensures
        words(render(repeated(text, opt_texts(values)))) == list(values),
        apart(render(repeated(text, opt_texts(values)))),
        plain_pieces(repeated(text, opt_texts(values))),
{
    repeated_list(text, opt_texts(values));
    plain_repeated(text, opt_texts(values));
    assert(words(render(repeated(text, opt_texts(values)))) =~= list(values));
}

/// A list of values that are tied to a name is read as one word for each value.
pub proof fn joints_read(text: &str, name: &str, values: Seq<Seq<char>>)
    requires
        reads(text, seq![word(name)], false),
    ensures
        words(render(repeated(text, values))) == joints(name, values),
        apart(render(repeated(text, values))),
        plain_pieces(repeated(text, values)),
    decreases values.len(),
{
    broadcast use group_words;

    plain_repeated(text, values);
    if values.len() > 0 {
        joints_read(text, name, values.drop_last());
        let front = repeated(text, values.drop_last());
        let last = named(text, values.last());
        assert(words(render(front + last)) == words(render(front)) + words(render(last)));
        assert(words(render(last)) == seq![word(name) + arg(values.last())]);
    }
    assert(words(render(repeated(text, values))) =~= joints(name, values));
}

proof fn setting_reads(text: &str, name: &str, key: Seq<char>, value: Seq<char>)
    requires
        reads(text, seq![word(name)], true),
    ensures
        words(render(named(text, key) + named("=", value))) == seq![
            word(name),
            arg(key) + word("=") + arg(value),
        ],
        apart(render(named(text, key) + named("=", value))),
        plain_pieces(named(text, key) + named("=", value)),
{
    reveal_strlit("=");
    let a = named(text, key);
    let b = named("=", value);
    plain_named(text, key);
    plain_named("=", value);
    plain_joins(a, b);
    words_of_named(text, key);
    assert(clean("="@));
    clean_is_one_word("="@);
    words_of_named("=", value);
    render_joins(a, b);
    command_reads_as_meant(a);
    command_reads_as_meant(b);
    reveal(outside);
    let tail = lit("=") + seq![Piece::Arg(value)];
    assert(b =~= tail);
    render_joins(lit("="), seq![Piece::Arg(value)]);
    one_piece(Piece::Lit("="@));
    one_piece(Piece::Arg(value));
    assert(render(b)[0] == '=');
    words_glue(render(a), render(b));
    let first = said(name, key);
    assert(glued(first, seq![word("=") + arg(value)]) =~= seq![
        word(name),
        arg(key) + (word("=") + arg(value)),
    ]);
    assert(arg(key) + (word("=") + arg(value)) =~= arg(key) + word("=") + arg(value));
    assert(render(a + b)[0] == render(a)[0]);
}

proof fn settings_read(text: &str, name: &str, entries: Seq<(Seq<char>, Seq<char>)>)
    requires
        reads(text, seq![word(name)], true),
    ensures
        words(render(settings(text, entries))) == Seq::new(
            2 * entries.len(),
            |i: int|
                if i % 2 == 0 {
                    word(name)
                } else {
                    arg(entries[i / 2].0) + word("=") + arg(entries[i / 2].1)
                },
        ),
        apart(render(settings(text, entries))),
    decreases entries.len(),
{
    broadcast use group_words;

    let want = Seq::new(
        2 * entries.len(),
        |i: int|
            if i % 2 == 0 {
                word(name)
            } else {
                arg(entries[i / 2].0) + word("=") + arg(entries[i / 2].1)
            },
    );
    if entries.len() > 0 {
        let (key, value) = entries.last();
        settings_read(text, name, entries.drop_last());
        plain_settings(text, entries.drop_last());
        setting_reads(text, name, key, value);
        let front = settings(text, entries.drop_last());
        let last = named(text, key) + named("=", value);
        assert(settings(text, entries) =~= front + last);
        assert(words(render(front + last)) == words(render(front)) + words(render(last)));
        assert forall|i: int| 0 <= i < want.len() implies (words(render(front)) + words(
            render(last),
        ))[i] == #[trigger] want[i] by {
            if i < 2 * (entries.len() - 1) {
                assert(entries.drop_last()[i / 2] == entries[i / 2]);
            }
        }
    }
    assert(words(render(settings(text, entries))) =~= want);
}

/// A map is read as its entries, each as one word `key=value` behind the name.
pub proof fn assignments_read(text: &str, name: &str, map: Option<StringMap>)
    requires
        reads(text, seq![word(name)], true),
    ensures
        words(render(settings(text, opt_entries(map)))) == assignments(name, map),
        apart(render(settings(text, opt_entries(map)))),
        plain_pieces(settings(text, opt_entries(map))),
{
    settings_read(text, name, opt_entries(map));
    plain_settings(text, opt_entries(map));
    assert(words(render(settings(text, opt_entries(map)))) =~= assignments(name, map));
}

/// The word `name` and a number as the word behind it, where there is a number.
pub open spec fn number(name: &str, n: Option<u64>) -> Seq<Seq<(char, Mark)>> {
    match n {
        Some(k) => seq![word(name)].push(all_active(decimal(k as nat))),
        None => seq![],
    }
}

/// A value that may be absent, as a word of its own.
pub open spec fn list_of(value: Option<String>) -> Seq<Seq<(char, Mark)>> {
    match value {
        Some(v) => Seq::<Seq<(char, Mark)>>::empty().push(arg(v@)),
        None => seq![],
    }
}

/// A number is one word of digits.
pub proof fn digits_are_one_word(n: nat)
    ensures
        clean(decimal(n)),
        words(decimal(n)) == seq![all_active(decimal(n))],
        !outside(decimal(n)),
        !apart(decimal(n)),
        plain(decimal(n)),
{
    decimal_reads_back(n);
    assert forall|i: int| 0 <= i < decimal(n).len() implies is_plain(#[trigger] decimal(n)[i])
        && !separates(decimal(n)[i]) by {
        assert(is_digit(decimal(n)[i]));
    }
    clean_is_one_word(decimal(n));
}

/// A number behind a name is read as the name and the number.
pub proof fn number_reads(text: &str, name: &str, n: u64)
    requires
        reads(text, seq![word(name)], true),
    ensures
        words(render(lit(text) + seq![Piece::Lit(decimal(n as nat))])) == number(name, Some(n)),
        apart(render(lit(text) + seq![Piece::Lit(decimal(n as nat))])),
        plain_pieces(lit(text) + seq![Piece::Lit(decimal(n as nat))]),
{
    broadcast use {group_words, group_plain};

    digits_are_one_word(n as nat);
    let a = lit(text);
    let b = seq![Piece::Lit(decimal(n as nat))];
    assert(plain_pieces(a) && plain_pieces(b));
    assert(outside(render(a)));
    assert(words(render(a + b)) == words(render(a)) + words(render(b)));
    assert(words(render(a + b)) =~= number(name, Some(n)));
    render_joins(a, b);
    one_piece(Piece::Lit(text@));
    assert(render(a + b)[0] == text@[0]);
}

/// Text without quotes ends between words where its last character ends a word.
pub proof fn text_ends(s: &str)
    requires
        plain(s@),
        s@.len() > 0,
    ensures
        outside(s@) == separates(s@.last()),
{
    reveal(outside);
    plain_stays_bare(s@);
    let front = s@.drop_last();
    assert forall|i: int| 0 <= i < front.len() implies is_plain(#[trigger] front[i]) by {
        assert(front[i] == s@[i]);
    }
    plain_stays_bare(front);
    settled_is_outside(s@);
}

} // verus!
