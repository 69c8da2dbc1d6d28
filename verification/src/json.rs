//! The JSON documents that are sent.

use vstd::prelude::*;

verus! {

/// A JSON document made of strings, arrays and objects.
#[derive(Debug)]
pub enum Json {
    Text(String),
    List(Vec<Json>),
    /// The members, in the order in which they are written.
    Object(Vec<(&'static str, Json)>),
}

/// What a `Json` says.
pub enum JsonView {
    Text(Seq<char>),
    List(Seq<JsonView>),
    Object(Seq<(Seq<char>, JsonView)>),
}

impl View for Json {
    type V = JsonView;

    open spec fn view(&self) -> JsonView
        decreases self,
    {
        match self {
            Json::Text(text) => JsonView::Text(text@),
            Json::List(items) => JsonView::List(
                Seq::new(
                    items@.len(),
                    |i: int|
                        if 0 <= i < items@.len() {
                            items@[i].view()
                        } else {
                            arbitrary()
                        },
                ),
            ),
            Json::Object(members) => JsonView::Object(
                Seq::new(
                    members@.len(),
                    |i: int|
                        if 0 <= i < members@.len() {
                            (members@[i].0@, members@[i].1.view())
                        } else {
                            arbitrary()
                        },
                ),
            ),
        }
    }
}

} // verus!
