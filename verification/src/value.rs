//! The host's loosely typed values, reduced to the shapes that validation
//! tells apart.

use vstd::prelude::*;

verus! {

/// A value as the host hands it over. Only text, lists and records are looked
/// into; every other kind of value is `Other`.
#[derive(Debug, PartialEq, Eq)]
pub enum RawValue {
    /// A string.
    Text(String),
    /// A list of values, in order.
    List(Vec<RawValue>),
    /// A record: keys with their values, in the order they were written.
    Record(Vec<(String, RawValue)>),
    /// Anything else: a number, a boolean, a closure, nothing at all.
    Other,
}

/// The mathematical value that a [`RawValue`] stands for.
pub enum RawValueView {
    Text(Seq<char>),
    List(Seq<RawValueView>),
    Record(Seq<RawEntryView>),
    Other,
}

/// One entry of a record: a key with its value.
pub struct RawEntryView {
    pub key: Seq<char>,
    pub value: RawValueView,
}

impl View for RawValue {
    type V = RawValueView;

    open spec fn view(&self) -> RawValueView
        decreases self,
    {
        match self {
            RawValue::Text(s) => RawValueView::Text(s@),
            RawValue::List(items) => RawValueView::List(
                Seq::new(
                    items@.len(),
                    |i: int|
                        if 0 <= i < items@.len() {
                            items@[i].view()
                        } else {
                            RawValueView::Other
                        },
                ),
            ),
            RawValue::Record(entries) => RawValueView::Record(
                Seq::new(
                    entries@.len(),
                    |i: int|
                        if 0 <= i < entries@.len() {
                            RawEntryView { key: entries@[i].0@, value: entries@[i].1.view() }
                        } else {
                            RawEntryView { key: Seq::empty(), value: RawValueView::Other }
                        },
                ),
            ),
            RawValue::Other => RawValueView::Other,
        }
    }
}

impl DeepView for RawValue {
    type V = RawValueView;

    open spec fn deep_view(&self) -> RawValueView {
        self.view()
    }
}

impl RawValueView {
    /// Whether the value is a list and each of its items is text.
    pub open spec fn is_text_list(self) -> bool {
        &&& self is List
        &&& forall|j: int| 0 <= j < self->List_0.len() ==> (#[trigger] self->List_0[j]) is Text
    }

    /// The texts of a list of texts, in order.
    pub open spec fn texts(self) -> Seq<Seq<char>>
        recommends
            self.is_text_list(),
    {
        Seq::new(self->List_0.len(), |j: int| self->List_0[j]->Text_0)
    }
}

impl RawValue {
    /// The view of a list is the list of its items' views.
    pub proof fn lemma_list_view(items: Vec<RawValue>)
        ensures
            RawValue::List(items)@ is List,
            RawValue::List(items)@->List_0.len() == items@.len(),
            forall|k: int|
                0 <= k < items@.len() ==> (#[trigger] RawValue::List(items)@->List_0[k])
                    == items@[k]@,
    {
    }

    /// The view of a record is the list of its entries' views.
    pub proof fn lemma_record_view(entries: Vec<(String, RawValue)>)
        ensures
            RawValue::Record(entries)@ is Record,
            RawValue::Record(entries)@->Record_0.len() == entries@.len(),
            forall|k: int|
                0 <= k < entries@.len() ==> (#[trigger] RawValue::Record(entries)@->Record_0[k])
                    == (RawEntryView { key: entries@[k].0@, value: entries@[k].1@ }),
    {
    }

    /// The items of a list of texts, or `None` for any other value.
    pub fn as_text_list(&self) -> (r: Option<Vec<String>>)
        ensures
            r is Some <==> self@.is_text_list(),
            r matches Some(texts) ==> texts.deep_view() == self@.texts(),
    {
        match self {
            RawValue::List(items) => {
                proof {
                    Self::lemma_list_view(*items);
                }
                let mut texts: Vec<String> = Vec::new();
                let mut j: usize = 0;
                while j < items.len()
                    invariant
                        j <= items.len(),
                        texts@.len() == j,
                        self@ is List,
                        self@->List_0.len() == items@.len(),
                        forall|k: int|
                            0 <= k < items@.len() ==> (#[trigger] self@->List_0[k]) == items@[k]@,
                        forall|k: int| 0 <= k < j ==> (#[trigger] self@->List_0[k]) is Text,
                        forall|k: int|
                            0 <= k < j ==> (#[trigger] texts@[k])@ == self@->List_0[k]->Text_0,
                    decreases items.len() - j,
                {
                    match &items[j] {
                        RawValue::Text(s) => texts.push(s.clone()),
                        _ => {
                            assert(!(self@->List_0[j as int] is Text));
                            return None;
                        },
                    }
                    j += 1;
                }
                Some(texts)
            },
            _ => None,
        }
    }
}

} // verus!
