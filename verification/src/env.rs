//! A snapshot of the process environment, taken once at startup and handed
//! to the resolvers as an explicit value.

use vstd::prelude::*;

use crate::text::same_text;

verus! {

/// What looking up one variable gives.
#[derive(Debug, PartialEq, Eq)]
pub enum EnvValue {
    /// The variable is set and its value is valid text.
    Present(String),
    /// The variable is not set.
    NotPresent,
    /// The variable is set, but its value is not valid text.
    NotUnicode,
}

/// The mathematical content of an [`EnvValue`].
pub enum EnvValueView {
    Present(Seq<char>),
    NotPresent,
    NotUnicode,
}

impl View for EnvValue {
    type V = EnvValueView;

    open spec fn view(&self) -> EnvValueView {
        match self {
            EnvValue::Present(text) => EnvValueView::Present(text@),
            EnvValue::NotPresent => EnvValueView::NotPresent,
            EnvValue::NotUnicode => EnvValueView::NotUnicode,
        }
    }
}

impl Clone for EnvValue {
    fn clone(&self) -> (copy: Self)
        ensures
            copy@ == self@,
    {
        match self {
            EnvValue::Present(text) => EnvValue::Present(text.clone()),
            EnvValue::NotPresent => EnvValue::NotPresent,
            EnvValue::NotUnicode => EnvValue::NotUnicode,
        }
    }
}

/// The value recorded last for `key` in `entries`, or `NotPresent`.
spec fn lookup(entries: Seq<(String, EnvValue)>, key: Seq<char>) -> EnvValueView
    decreases entries.len(),
{
    if entries.len() == 0 {
        EnvValueView::NotPresent
    } else if entries.last().0@ == key {
        entries.last().1@
    } else {
        lookup(entries.drop_last(), key)
    }
}

/// The variables of a process environment, as they were when it was read.
#[derive(Debug)]
pub struct Environment {
    entries: Vec<(String, EnvValue)>,
}

impl Environment {
    /// What the snapshot holds for `key`.
    pub closed spec fn spec_var(&self, key: Seq<char>) -> EnvValueView {
        lookup(self.entries@, key)
    }

    /// A snapshot in which no variable is set.
    pub fn new() -> (env: Self)
        ensures
            forall|key: Seq<char>| #[trigger] env.spec_var(key) == EnvValueView::NotPresent,
    {
        Environment { entries: Vec::new() }
    }

    /// Records `value` for `key`, in place of what was recorded before.
    pub fn record(&mut self, key: &str, value: EnvValue)
        ensures
            final(self).spec_var(key@) == value@,
            forall|other: Seq<char>|
                other != key@ ==> #[trigger] final(self).spec_var(other) == old(self).spec_var(
                    other,
                ),
    {
        let ghost before = self.entries@;
        self.entries.push((key.to_owned(), value));
        assert(self.entries@.drop_last() =~= before);
    }

    /// Sets `key` to the text `value`.
    pub fn set(&mut self, key: &str, value: &str)
        ensures
            final(self).spec_var(key@) == EnvValueView::Present(value@),
            forall|other: Seq<char>|
                other != key@ ==> #[trigger] final(self).spec_var(other) == old(self).spec_var(
                    other,
                ),
    {
        self.record(key, EnvValue::Present(value.to_owned()));
    }

    /// Sets `key` to a value that is not valid text.
    pub fn set_not_unicode(&mut self, key: &str)
        ensures
            final(self).spec_var(key@) == EnvValueView::NotUnicode,
            forall|other: Seq<char>|
                other != key@ ==> #[trigger] final(self).spec_var(other) == old(self).spec_var(
                    other,
                ),
    {
        self.record(key, EnvValue::NotUnicode);
    }

    /// Unsets `key`.
    pub fn remove(&mut self, key: &str)
        ensures
            final(self).spec_var(key@) == EnvValueView::NotPresent,
            forall|other: Seq<char>|
                other != key@ ==> #[trigger] final(self).spec_var(other) == old(self).spec_var(
                    other,
                ),
    {
        self.record(key, EnvValue::NotPresent);
    }

    /// Looks `key` up.
    pub fn var(&self, key: &str) -> (value: EnvValue)
        ensures
            value@ == self.spec_var(key@),
    {
        let mut i: usize = self.entries.len();
        assert(self.entries@.take(i as int) =~= self.entries@);
        while i > 0
            invariant
                i <= self.entries.len(),
                lookup(self.entries@, key@) == lookup(self.entries@.take(i as int), key@),
            decreases i,
        {
            i -= 1;
            let ghost upto = self.entries@.take(i + 1);
            assert(upto.drop_last() =~= self.entries@.take(i as int));
            if same_text(self.entries[i].0.as_str(), key) {
                return self.entries[i].1.clone();
            }
        }
        EnvValue::NotPresent
    }
}

} // verus!
