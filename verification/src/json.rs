//! JSON values as the backends exchange them.
//!
//! Request bodies are built here and serialised by the program around the
//! library; response bodies are parsed there and read here.
use vstd::prelude::*;

verus! {

/// A JSON value. Numbers are kept in their textual form.
#[derive(Debug)]
pub enum Json {
    Null,
    Bool(bool),
    Number(String),
    Str(String),
    Array(Vec<Json>),
    Object(Vec<(String, Json)>),
}

/// The abstract value of a JSON value.
#[verifier::ext_equal]
pub enum JsonView {
    Null,
    Bool(bool),
    Number(Seq<char>),
    Str(Seq<char>),
    Array(Seq<JsonView>),
    Object(Seq<(Seq<char>, JsonView)>),
}

pub open spec fn json_view(j: Json) -> JsonView
    decreases j,
{
    match j {
        Json::Null => JsonView::Null,
        Json::Bool(b) => JsonView::Bool(b),
        Json::Number(n) => JsonView::Number(n@),
        Json::Str(s) => JsonView::Str(s@),
        Json::Array(items) => JsonView::Array(items_view(items@)),
        Json::Object(entries) => JsonView::Object(entries_view(entries@)),
    }
}

pub open spec fn items_view(items: Seq<Json>) -> Seq<JsonView>
    decreases items,
{
    if items.len() == 0 {
        Seq::empty()
    } else {
        seq![json_view(items[0])] + items_view(items.drop_first())
    }
}

pub open spec fn entries_view(entries: Seq<(String, Json)>) -> Seq<(Seq<char>, JsonView)>
    decreases entries,
{
    if entries.len() == 0 {
        Seq::empty()
    } else {
        seq![(entries[0].0@, json_view(entries[0].1))] + entries_view(entries.drop_first())
    }
}

/// The view of a sequence of values is the sequence of their views.
pub proof fn lemma_items_view(items: Seq<Json>)
    ensures
        items_view(items).len() == items.len(),
        forall|i: int| 0 <= i < items.len() ==> #[trigger] items_view(items)[i] == json_view(items[i]),
    decreases items.len(),
{
    if items.len() > 0 {
        lemma_items_view(items.drop_first());
        assert forall|i: int| 0 <= i < items.len() implies #[trigger] items_view(items)[i] == json_view(items[i]) by {
            if i > 0 {
                assert(items.drop_first()[i - 1] == items[i]);
            }
        }
    }
}

/// The view of a sequence of entries is the sequence of their views.
pub proof fn lemma_entries_view(entries: Seq<(String, Json)>)
    ensures
        entries_view(entries).len() == entries.len(),
        forall|i: int|
            0 <= i < entries.len() ==> #[trigger] entries_view(entries)[i] == (
                entries[i].0@,
                json_view(entries[i].1),
            ),
    decreases entries.len(),
{
    if entries.len() > 0 {
        lemma_entries_view(entries.drop_first());
        assert forall|i: int| 0 <= i < entries.len() implies #[trigger] entries_view(entries)[i] == (
            entries[i].0@,
            json_view(entries[i].1),
        ) by {
            if i > 0 {
                assert(entries.drop_first()[i - 1] == entries[i]);
            }
        }
    }
}

impl View for Json {
    type V = JsonView;

    open spec fn view(&self) -> JsonView {
        json_view(*self)
    }
}

// ---------------------------------------------------------------------------
// Reading
// ---------------------------------------------------------------------------

/// The value under the first entry named `key` of an object.
pub open spec fn first_entry(entries: Seq<(Seq<char>, JsonView)>, key: Seq<char>) -> Option<
    JsonView,
>
    decreases entries.len(),
{
    if entries.len() == 0 {
        None
    } else if entries[0].0 == key {
        Some(entries[0].1)
    } else {
        first_entry(entries.drop_first(), key)
    }
}

/// `value[key]`: the field of an object, or `Null` for a missing field or a
/// value that is not an object.
pub open spec fn field(j: JsonView, key: Seq<char>) -> JsonView {
    match j {
        JsonView::Object(entries) => match first_entry(entries, key) {
            Some(v) => v,
            None => JsonView::Null,
        },
        _ => JsonView::Null,
    }
}

/// `value[i]`: the element of an array, or `Null` out of range or for a
/// value that is not an array.
pub open spec fn element(j: JsonView, i: int) -> JsonView {
    match j {
        JsonView::Array(items) => if 0 <= i < items.len() {
            items[i]
        } else {
            JsonView::Null
        },
        _ => JsonView::Null,
    }
}

/// `value.as_str()`: the text of a string value.
pub open spec fn text_of(j: JsonView) -> Option<Seq<char>> {
    match j {
        JsonView::Str(s) => Some(s),
        _ => None,
    }
}

impl Json {
    /// An object with these entries, in order.
    pub fn object(entries: Vec<(String, Json)>) -> (r: Json)
        ensures
            r@ == JsonView::Object(entries_view(entries@)),
            entries_view(entries@).len() == entries@.len(),
            forall|i: int|
                0 <= i < entries@.len() ==> #[trigger] entries_view(entries@)[i] == (
                    entries@[i].0@,
                    entries@[i].1@,
                ),
    {
        proof {
            lemma_entries_view(entries@);
        }
        Json::Object(entries)
    }

    /// An array with these items, in order.
    pub fn array(items: Vec<Json>) -> (r: Json)
        ensures
            r@ == JsonView::Array(items_view(items@)),
            items_view(items@).len() == items@.len(),
            forall|i: int| 0 <= i < items@.len() ==> #[trigger] items_view(items@)[i] == items@[i]@,
    {
        proof {
            lemma_items_view(items@);
        }
        Json::Array(items)
    }

    /// `self[key]`, or `None` where that would be `Null` because the field is
    /// missing or `self` is no object.
    pub fn get(&self, key: &str) -> (r: Option<&Json>)
        ensures
            match r {
                Some(v) => field(self@, key@) == v@ && (self@ matches JsonView::Object(es)
                    && first_entry(es, key@) is Some),
                None => field(self@, key@) == JsonView::Null && !(self@ matches JsonView::Object(
                    es,
                ) && first_entry(es, key@) is Some),
            },
    {
        match self {
            Json::Object(entries) => {
                let ghost es = self@->Object_0;
                proof {
                    lemma_entries_view(entries@);
                }
                let mut i: usize = 0;
                assert(es.skip(0) =~= es);
                while i < entries.len()
                    invariant
                        i <= entries@.len(),
                        es == self@->Object_0,
                        self@ == json_view(Json::Object(*entries)),
                        es.len() == entries@.len(),
                        forall|j: int|
                            0 <= j < es.len() ==> #[trigger] es[j] == (
                                entries@[j].0@,
                                json_view(entries@[j].1),
                            ),
                        first_entry(es, key@) == first_entry(es.skip(i as int), key@),
                    decreases entries@.len() - i,
                {
                    assert(es[i as int] == (entries@[i as int].0@, json_view(entries@[i as int].1)));
                    if crate::text::str_eq(entries[i].0.as_str(), key) {
                        assert(es.skip(i as int)[0] == es[i as int]);
                        return Some(&entries[i].1);
                    }
                    assert(es.skip(i as int).drop_first() =~= es.skip(i + 1));
                    i = i + 1;
                }
                assert(es.skip(i as int).len() == 0);
                None
            },
            _ => None,
        }
    }

    /// `self[i]`, or `None` where that would be `Null`.
    pub fn at(&self, i: usize) -> (r: Option<&Json>)
        ensures
            match r {
                Some(v) => element(self@, i as int) == v@ && (self@ matches JsonView::Array(items)
                    && i < items.len()),
                None => element(self@, i as int) == JsonView::Null && !(self@ matches JsonView::Array(
                    items,
                ) && i < items.len()),
            },
    {
        match self {
            Json::Array(items) => {
                proof {
                    lemma_items_view(items@);
                }
                if i < items.len() {
                    Some(&items[i])
                } else {
                    None
                }
            },
            _ => None,
        }
    }

    /// `self.as_str()`.
    pub fn as_str(&self) -> (r: Option<&str>)
        ensures
            match r {
                Some(s) => text_of(self@) == Some(s@),
                None => text_of(self@) is None,
            },
    {
        match self {
            Json::Str(s) => Some(s.as_str()),
            _ => None,
        }
    }
}

} // verus!
