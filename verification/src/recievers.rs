use vstd::prelude::*;
use crate::expr::{Reaction, ReactionS};

verus! {

/// A typed callback subscribed to the message bus, tied to the scope it was
/// registered on: fires for messages whose tag matches.
#[derive(Debug)]
pub struct Reciever {
    pub tag: u64,
    pub react: Reaction,
}

pub struct RecieverS {
    pub tag: u64,
    pub react: ReactionS,
}

impl View for Reciever {
    type V = RecieverS;

    open spec fn view(&self) -> RecieverS {
        RecieverS { tag: self.tag, react: self.react@ }
    }
}

impl Reciever {
    pub fn clone_reciever(&self) -> (r: Reciever)
        ensures
            r@ == self@,
    {
        Reciever { tag: self.tag, react: self.react.clone_reaction() }
    }
}

} // verus!
