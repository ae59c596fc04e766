//! Values that must not be shown, and the text by which they are shown instead.
use crate::text::{decimal, decimal_text};
use vstd::prelude::*;

verus! {

/// What stands in place of a secret wherever it would be shown.
pub const REDACTED: &'static str = "[REDACTED]";

/// A text that only [`RedactedSecret::as_str`] gives out.
pub struct RedactedSecret {
    value: String,
}

impl View for RedactedSecret {
    type V = Seq<char>;

    closed spec fn view(&self) -> Seq<char> {
        self.value@
    }
}

impl RedactedSecret {
    pub fn from(value: &str) -> (r: Self)
        ensures
            r@ == value@,
    {
        RedactedSecret { value: value.to_owned() }
    }

    /// The secret itself.
    pub fn as_str(&self) -> (r: &str)
        ensures
            r@ == self@,
    {
        self.value.as_str()
    }

    /// The text that the secret is shown by, the same for every secret.
    pub fn debug_text(&self) -> (r: String)
        ensures
            r@ == REDACTED@,
    {
        REDACTED.to_owned()
    }
}

/// The form in which `std` shows a text for debugging: between double quotes, with escapes.
pub uninterp spec fn shown_text(s: Seq<char>) -> Seq<char>;

/// The `Debug` form of a `str`, which `std` makes of its characters alone.
#[verifier::external_body]
pub(crate) fn show_text(s: &str) -> (r: String)
    ensures
        r@ == shown_text(s@),
{
    format!("{:?}", s)
}

/// A value that may be absent, as it is shown.
pub open spec fn shown_option(shown: Option<Seq<char>>) -> Seq<char> {
    match shown {
        Some(s) => "Some("@ + s + ")"@,
        None => "None"@,
    }
}

/// A text that may be absent, as it is shown.
pub open spec fn shown_opt_text(value: Option<String>) -> Seq<char> {
    shown_option(
        match value {
            Some(v) => Some(shown_text(v@)),
            None => None,
        },
    )
}

/// A number that may be absent, as it is shown.
pub open spec fn shown_opt_number(value: Option<u64>) -> Seq<char> {
    shown_option(
        match value {
            Some(n) => Some(decimal(n as nat)),
            None => None,
        },
    )
}

/// The items of a list, already in the form in which they are shown, with commas between them.
pub open spec fn shown_items(items: Seq<Seq<char>>) -> Seq<char>
    decreases items.len(),
{
    if items.len() == 0 {
        seq![]
    } else if items.len() == 1 {
        items[0]
    } else {
        shown_items(items.drop_last()) + ", "@ + items.last()
    }
}

/// A list, as it is shown.
pub open spec fn shown_list(items: Seq<Seq<char>>) -> Seq<char> {
    "["@ + shown_items(items) + "]"@
}

/// The text of a value that is being shown, field by field.
pub struct DebugText {
    text: String,
}

impl View for DebugText {
    type V = Seq<char>;

    closed spec fn view(&self) -> Seq<char> {
        self.text@
    }
}

fn in_some(s: &str) -> (r: String)
    ensures
        r@ == "Some("@ + s@ + ")"@,
{
    let mut out: String = "Some(".to_owned();
    out.append(s);
    out.append(")");
    out
}

impl DebugText {
    /// Starts with the given text.
    pub fn new(text: &str) -> (r: Self)
        ensures
            r@ == text@,
    {
        DebugText { text: text.to_owned() }
    }

    /// Adds a text as it is.
    pub fn raw(&mut self, text: &str)
        ensures
            final(self)@ == old(self)@ + text@,
    {
        self.text.append(text);
    }

    /// Adds a text in the form in which it is shown.
    pub fn text(&mut self, s: &str)
        ensures
            final(self)@ == old(self)@ + shown_text(s@),
    {
        self.text.append(show_text(s).as_str());
    }

    /// Adds a text that may be absent.
    pub fn opt_text(&mut self, value: &Option<String>)
        ensures
            final(self)@ == old(self)@ + shown_opt_text(*value),
    {
        match value {
            Some(v) => self.text.append(in_some(show_text(v.as_str()).as_str()).as_str()),
            None => self.text.append("None"),
        }
    }

    /// Adds a number that may be absent.
    pub fn opt_number(&mut self, value: Option<u64>)
        ensures
            final(self)@ == old(self)@ + shown_opt_number(value),
    {
        match value {
            Some(n) => self.text.append(in_some(decimal_text(n).as_str()).as_str()),
            None => self.text.append("None"),
        }
    }

    /// Adds a secret that may be absent.
    pub fn opt_secret(&mut self, value: &Option<RedactedSecret>)
        ensures
            final(self)@ == old(self)@ + shown_opt_secret(*value is Some),
    {
        match value {
            Some(v) => self.text.append(in_some(v.debug_text().as_str()).as_str()),
            None => self.text.append("None"),
        }
    }

    /// Adds a list of items that are already in the form in which they are shown.
    pub fn list(&mut self, items: &Vec<String>)
        ensures
            final(self)@ == old(self)@ + shown_list(crate::shell::texts(items@)),
    {
        let ghost all = crate::shell::texts(items@);
        let mut inner: String = String::new();
        let mut i: usize = 0;
        assert(inner@ =~= shown_items(all.take(0)));
        while i < items.len()
            invariant
                i <= items@.len(),
                all == crate::shell::texts(items@),
                inner@ == shown_items(all.take(i as int)),
            decreases items@.len() - i,
        {
            if i > 0 {
                inner.append(", ");
            }
            inner.append(items[i].as_str());
            proof {
                let next = all.take(i + 1);
                assert(next.drop_last() =~= all.take(i as int));
                assert(next.last() == items@[i as int]@);
                if i == 0 {
                    assert(next[0] == items@[0]@);
                    assert(inner@ =~= shown_items(next));
                }
            }
            i += 1;
        }
        assert(all.take(items@.len() as int) =~= all);
        self.text.append("[");
        self.text.append(inner.as_str());
        self.text.append("]");
        assert(self@ =~= old(self)@ + shown_list(all));
    }

    /// The finished text.
    pub fn into_text(self) -> (r: String)
        ensures
            r@ == self@,
    {
        self.text
    }
}

/// A secret that may be absent, as it is shown: only whether it is there.
pub open spec fn shown_opt_secret(present: bool) -> Seq<char> {
    shown_option(
        if present {
            Some(REDACTED@)
        } else {
            None
        },
    )
}

} // verus!
