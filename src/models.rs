use vstd::prelude::*;

verus! {

/// A stored post: an identifier once persisted, a title and a body.
#[derive(Default, Clone, Debug)]
pub struct Post {
    pub id: Option<i32>,
    pub title: String,
    pub body: String,
}

} // verus!
