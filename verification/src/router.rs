//! How the handler for a method is found.

use vstd::hash_map::StringHashMap;
use vstd::prelude::*;

verus! {

/// What finds the handler for a method by its name.
pub trait Router: Default {
    type Handler;

    /// The handlers, each under the name of its method.
    spec fn routes(&self) -> Map<Seq<char>, Self::Handler>;

    fn get(&self, name: &str) -> (res: Option<&Self::Handler>)
        ensures
            match res {
                Some(handler) => self.routes().contains_key(name@) && *handler
                    == self.routes()[name@],
                None => !self.routes().contains_key(name@),
            },
    ;

    fn insert(&mut self, name: String, handler: Self::Handler) -> (res: Option<Self::Handler>)
        ensures
            final(self).routes() == old(self).routes().insert(name@, handler),
            match res {
                Some(replaced) => old(self).routes().contains_key(name@) && replaced == old(
                    self,
                ).routes()[name@],
                None => !old(self).routes().contains_key(name@),
            },
    ;
}

/// A router that keeps the handlers in a hash map
pub struct MapRouter<H> {
    slots: StringHashMap<usize>,
    handlers: Vec<H>,
}

impl<H> MapRouter<H> {
    /// Every name has a slot of its own.
    #[verifier::type_invariant]
    closed spec fn inv(self) -> bool {
        &&& forall|name: Seq<char>| #[trigger]
            self.slots@.contains_key(name) ==> self.slots@[name] < self.handlers.len()
        &&& forall|a: Seq<char>, b: Seq<char>|
            #![trigger self.slots@[a], self.slots@[b]]
            self.slots@.contains_key(a) && self.slots@.contains_key(b) && a != b
                ==> self.slots@[a] != self.slots@[b]
    }
}

impl<H> Default for MapRouter<H> {
    fn default() -> (res: Self)
        ensures
            res.routes() == Map::<Seq<char>, H>::empty(),
    {
        MapRouter { slots: StringHashMap::new(), handlers: Vec::new() }
    }
}

impl<H> Router for MapRouter<H> {
    type Handler = H;

    closed spec fn routes(&self) -> Map<Seq<char>, H> {
        Map::new(
            |name: Seq<char>| self.slots@.contains_key(name),
            |name: Seq<char>| self.handlers@[self.slots@[name] as int],
        )
    }

    fn get(&self, name: &str) -> (res: Option<&H>) {
        proof {
            use_type_invariant(self);
        }
        match self.slots.get(name) {
            Some(slot) => Some(&self.handlers[*slot]),
            None => None,
        }
    }

    fn insert(&mut self, name: String, handler: H) -> (res: Option<H>) {
        proof {
            use_type_invariant(&*self);
        }
        let mut slots = StringHashMap::new();
        let mut handlers: Vec<H> = Vec::new();
        std::mem::swap(&mut slots, &mut self.slots);
        std::mem::swap(&mut handlers, &mut self.handlers);
        let found = match slots.get(name.as_str()) {
            Some(slot) => Some(*slot),
            None => None,
        };
        handlers.push(handler);
        let replaced = match found {
            Some(slot) => Some(handlers.swap_remove(slot)),
            None => {
                slots.insert(name, handlers.len() - 1);
                None
            },
        };
        self.handlers = handlers;
        self.slots = slots;
        assert(self.routes() =~= old(self).routes().insert(name@, handler));
        replaced
    }
}

} // verus!
