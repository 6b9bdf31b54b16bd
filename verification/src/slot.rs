use vstd::prelude::*;

verus! {

/// The shared endpoint slot: a single-assignment cell for the endpoint URL.
/// The extractor publishes into it at most once; the launch coordinator
/// polls it. Once set it is never overwritten — the first published value
/// is permanent. Mutual exclusion around the cell belongs to the embedding
/// (a lock held around every `publish` and every `get`); this type carries
/// the single-assignment rule itself.
#[derive(Debug)]
pub struct EndpointSlot {
    url: Option<String>,
}

impl EndpointSlot {
    /// What the slot currently holds.
    pub closed spec fn view_url(self) -> Option<Seq<char>> {
        match self.url {
            Some(u) => Some(u@),
            None => None,
        }
    }

    /// An empty slot.
    pub fn new() -> (r: Self)
        ensures
            r.view_url() is None,
    {
        EndpointSlot { url: None }
    }

    /// Publishes a value: the slot takes it only while still empty. A slot
    /// already holding a value keeps it unchanged — first match wins.
    pub fn publish(&mut self, url: String)
        ensures
            old(self).view_url() is None ==> final(self).view_url() == Some(url@),
            old(self).view_url() is Some ==> final(self).view_url() == old(self).view_url(),
    {
        if self.url.is_none() {
            self.url = Some(url);
        }
    }

    /// A copy of what the slot holds, leaving the slot as it is.
    pub fn get(&self) -> (r: Option<String>)
        ensures
            match r {
                Some(u) => self.view_url() == Some(u@),
                None => self.view_url() is None,
            },
    {
        match &self.url {
            Some(u) => Some(u.clone()),
            None => None,
        }
    }
}

} // verus!
