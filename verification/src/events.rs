use vstd::prelude::*;

use crate::accounts::{DISC_LEN, EventRecord, spec_decode_event};
use crate::keys::Pubkey;

verus! {

/// One event subscription: the program it listens to, the schema tag its
/// events must carry, and the liveness flag.
///
/// The flag starts true at `subscribe`, is set false exactly once by
/// `unsubscribe`, and once false no notification is delivered any more.
pub struct Subscription {
    program_id: Pubkey,
    disc: Vec<u8>,
    live: bool,
}

impl Subscription {
    /// Whether the subscription still delivers.
    pub closed spec fn spec_live(&self) -> bool {
        self.live
    }

    /// The program identifier the subscription filters on.
    pub closed spec fn spec_program(&self) -> Seq<u8> {
        self.program_id@
    }

    /// The schema tag expected of every delivered event.
    pub closed spec fn spec_disc(&self) -> Seq<u8> {
        self.disc@
    }

    pub open spec fn wf(&self) -> bool {
        self.spec_disc().len() == DISC_LEN
    }

    /// Installs a listener: the subscription starts live, bound to one
    /// program identifier and one event schema.
    pub fn subscribe(program_id: Pubkey, disc: Vec<u8>) -> (s: Subscription)
        requires
            disc@.len() == DISC_LEN,
        ensures
            s.spec_live(),
            s.spec_program() == program_id@,
            s.spec_disc() == disc@,
            s.wf(),
    {
        Subscription { program_id, disc, live: true }
    }

    /// Tears the subscription down: it is no longer live, and stays bound
    /// to the same program and schema.
    pub fn unsubscribe(&mut self)
        ensures
            !final(self).spec_live(),
            final(self).spec_program() == old(self).spec_program(),
            final(self).spec_disc() == old(self).spec_disc(),
            final(self).wf() == old(self).wf(),
    {
        self.live = false;
    }

    pub fn is_live(&self) -> (r: bool)
        ensures
            r == self.spec_live(),
    {
        self.live
    }

    /// The delivery decision for one notification, at spec level: an event
    /// is handed on exactly when the subscription is live, the notification
    /// comes from the subscribed program, and its payload decodes against
    /// the expected schema; everything else is dropped silently.
    pub open spec fn spec_deliver(&self, source: Seq<u8>, payload: Seq<u8>) -> Option<(nat, Seq<u8>)> {
        if self.spec_live() && source == self.spec_program() {
            spec_decode_event(self.spec_disc(), payload)
        } else {
            Option::None
        }
    }

    /// Decides one notification: decode-and-forward on a live matching
    /// subscription, silent drop otherwise.
    pub fn deliver(&self, source: &Pubkey, payload: &Vec<u8>) -> (r: Option<EventRecord>)
        requires
            self.wf(),
        ensures
            match r {
                Some(e) => self.spec_deliver(source@, payload@) == Option::Some(
                    (e.data as nat, e.label@),
                ),
                None => self.spec_deliver(source@, payload@) is None,
            },
    {
        if !self.live {
            return Option::None;
        }
        if !crate::keys::bytes_eq(source.as_bytes(), self.program_id.as_bytes()) {
            return Option::None;
        }
        match EventRecord::decode(&self.disc, payload) {
            Ok(e) => Option::Some(e),
            Err(_) => Option::None,
        }
    }
}

/// Once `unsubscribe` has returned, no notification whatever its source or
/// payload is delivered for that subscription any more.
pub proof fn lemma_no_delivery_after_unsubscribe(s: Subscription, source: Seq<u8>, payload: Seq<u8>)
    requires
        !s.spec_live(),
    ensures
        s.spec_deliver(source, payload) is None,
{
}

} // verus!
