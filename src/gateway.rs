//! Reading the replies of the remote service.
//!
//! Every reply arrives in an envelope `{state, code, message, data}`; the
//! call succeeded in the business sense only when `state == 1` and
//! `code == 0`. Transport and decode failures never reach an envelope.
use vstd::prelude::*;

use crate::engine::Api115ClientSingle;

verus! {

/// What a single round trip to the service produced.
#[derive(Debug, Clone, PartialEq, Eq)]
pub enum Reply<T> {
    /// The request did not complete, or the HTTP status was not a success.
    TransportFailed(String),
    /// The body did not parse as the expected envelope.
    DecodeFailed(String),
    /// A well-formed envelope.
    Envelope { state: i32, code: i32, message: String, data: T },
}

/// The result of one remote step, as the workflow sees it.
#[derive(Debug, Clone, PartialEq, Eq)]
pub enum Outcome<T> {
    Succeeded(T),
    Rejected(String),
    TransportFailed(String),
    DecodeFailed(String),
    /// The envelope reported success but lacked the field that was needed.
    MissingField,
}

/// One entry of the listing of an account's own wishes.
#[derive(Debug, Clone, PartialEq, Eq)]
pub struct ListingItem {
    pub code: String,
    pub aid_num: i32,
}

/// The loosely typed `data` of an assist reply.
#[derive(Debug, Clone, PartialEq, Eq)]
pub enum AssistPayload {
    /// `data` is an object; `aid_id` is its `aid_id` member when that is a string.
    Recognized { aid_id: Option<String> },
    /// `data` is not an object.
    Unrecognized,
}

pub open spec fn business_ok(state: i32, code: i32) -> bool {
    state == 1 && code == 0
}

/// The outcome an envelope stands for, before any field is inspected.
pub open spec fn settled<T>(reply: Reply<T>) -> Outcome<T> {
    match reply {
        Reply::TransportFailed(e) => Outcome::TransportFailed(e),
        Reply::DecodeFailed(e) => Outcome::DecodeFailed(e),
        Reply::Envelope { state, code, message, data } => {
            if business_ok(state, code) {
                Outcome::Succeeded(data)
            } else {
                Outcome::Rejected(message)
            }
        },
    }
}

/// The same failure, carried over to another payload type.
pub open spec fn failure_as<T, U>(o: Outcome<T>) -> Outcome<U> {
    match o {
        Outcome::Rejected(m) => Outcome::Rejected(m),
        Outcome::TransportFailed(e) => Outcome::TransportFailed(e),
        Outcome::DecodeFailed(e) => Outcome::DecodeFailed(e),
        _ => Outcome::MissingField,
    }
}

/// A canonical code counts only when it is non-empty.
pub open spec fn code_outcome(reply: Reply<String>) -> Outcome<String> {
    match settled(reply) {
        Outcome::Succeeded(c) => {
            if c@.len() == 0 {
                Outcome::MissingField
            } else {
                Outcome::Succeeded(c)
            }
        },
        o => o,
    }
}

/// An assist succeeded only when its reply names a non-empty assist id.
pub open spec fn assist_outcome(reply: Reply<AssistPayload>) -> Outcome<String> {
    match settled(reply) {
        Outcome::Succeeded(p) => match p {
            AssistPayload::Recognized { aid_id: Some(id) } => {
                if id@.len() == 0 {
                    Outcome::MissingField
                } else {
                    Outcome::Succeeded(id)
                }
            },
            _ => Outcome::MissingField,
        },
        o => failure_as(o),
    }
}

pub open spec fn codes_of(v: Seq<String>) -> Seq<Seq<char>> {
    v.map_values(|s: String| s@)
}

/// Some item of the listing carries code `s` and has no assist yet.
pub open spec fn pending_among(items: Seq<ListingItem>, s: Seq<char>) -> bool {
    exists|j: int| 0 <= j < items.len() && items[j].code@ == s && #[trigger] items[j].aid_num == 0
}

/// `ids` holds each code of a pending item exactly once, and nothing else.
pub open spec fn is_pending_set(items: Seq<ListingItem>, ids: Seq<Seq<char>>) -> bool {
    &&& ids.no_duplicates()
    &&& forall|s: Seq<char>| ids.contains(s) <==> pending_among(items, s)
}

pub fn is_business_success(state: i32, code: i32) -> (r: bool)
    ensures
        r == business_ok(state, code),
{
    state == 1 && code == 0
}

/// Whether `s` is among `ids`.
fn holds_code(ids: &Vec<String>, s: &String) -> (r: bool)
    ensures
        r == codes_of(ids@).contains(s@),
{
    let mut k: usize = 0;
    while k < ids.len()
        invariant
            k <= ids.len(),
            forall|m: int| 0 <= m < k ==> ids@[m]@ != s@,
        decreases ids.len() - k,
    {
        if ids[k] == *s {
            assert(codes_of(ids@)[k as int] == s@);
            return true;
        }
        k = k + 1;
    }
    proof {
        if codes_of(ids@).contains(s@) {
            let m = choose|m: int| 0 <= m < codes_of(ids@).len() && codes_of(ids@)[m] == s@;
            assert(ids@[m]@ == s@);
        }
    }
    false
}

/// The codes of the listed items that have no assist yet, each once, in
/// the order of their first appearance.
pub fn pending_codes(items: &Vec<ListingItem>) -> (ids: Vec<String>)
    ensures
        is_pending_set(items@, codes_of(ids@)),
{
    let mut ids: Vec<String> = Vec::new();
    let mut i: usize = 0;
    while i < items.len()
        invariant
            i <= items.len(),
            codes_of(ids@).no_duplicates(),
            forall|s: Seq<char>|
                codes_of(ids@).contains(s) <==> pending_among(items@.take(i as int), s),
        decreases items.len() - i,
    {
        let ghost before = ids@;
        let item = &items[i];
        if item.aid_num == 0 && !holds_code(&ids, &item.code) {
            ids.push(item.code.clone());
            assert(codes_of(ids@) =~= codes_of(before).push(item.code@));
        }
        proof {
            let next = items@.take(i + 1);
            assert(items@.take(i as int) =~= next.take(i as int));
            assert forall|s: Seq<char>|
                codes_of(ids@).contains(s) <==> pending_among(next, s) by {
                if pending_among(next, s) {
                    let j = choose|j: int|
                        0 <= j < next.len() && next[j].code@ == s && #[trigger] next[j].aid_num == 0;
                    if j < i {
                        assert(items@.take(i as int)[j] == next[j]);
                        assert(pending_among(items@.take(i as int), s));
                        assert(codes_of(before).contains(s));
                        let m = choose|m: int| 0 <= m < codes_of(before).len() && codes_of(before)[m] == s;
                        assert(codes_of(ids@)[m] == s);
                    } else {
                        assert(next[j] == *item);
                        if codes_of(before).contains(s) {
                            let m = choose|m: int| 0 <= m < codes_of(before).len() && codes_of(before)[m] == s;
                            assert(codes_of(ids@)[m] == s);
                        } else {
                            assert(codes_of(ids@)[before.len() as int] == s);
                        }
                    }
                }
                if codes_of(ids@).contains(s) {
                    let m = choose|m: int| 0 <= m < codes_of(ids@).len() && codes_of(ids@)[m] == s;
                    if m < before.len() {
                        assert(codes_of(before)[m] == s);
                        assert(codes_of(before).contains(s));
                        let j = choose|j: int|
                            0 <= j < items@.take(i as int).len() && items@.take(i as int)[j].code@ == s
                                && #[trigger] items@.take(i as int)[j].aid_num == 0;
                        assert(next[j] == items@.take(i as int)[j]);
                    } else {
                        assert(next[i as int] == *item);
                    }
                }
            }
        }
        i = i + 1;
    }
    assert(items@.take(items.len() as int) =~= items@);
    ids
}

impl Api115ClientSingle {
    /// Reads a create-wish reply: the new wish's identifier on success.
    pub fn make_wish(reply: Reply<String>) -> (r: Outcome<String>)
        ensures
            r == settled(reply),
    {
        settle(reply)
    }

    /// Reads a listing reply: on success, the codes of the wishes that have
    /// no assist yet, each once.
    pub fn get_pending_wishes(reply: Reply<Vec<ListingItem>>) -> (r: Outcome<Vec<String>>)
        ensures
            match reply {
                Reply::Envelope { state, code, message, data } => {
                    if business_ok(state, code) {
                        r is Succeeded && is_pending_set(data@, codes_of(r->Succeeded_0@))
                    } else {
                        r == Outcome::<Vec<String>>::Rejected(message)
                    }
                },
                _ => r == failure_as::<Vec<ListingItem>, Vec<String>>(settled(reply)),
            },
    {
        match reply {
            Reply::TransportFailed(e) => Outcome::TransportFailed(e),
            Reply::DecodeFailed(e) => Outcome::DecodeFailed(e),
            Reply::Envelope { state, code, message, data } => {
                if is_business_success(state, code) {
                    Outcome::Succeeded(pending_codes(&data))
                } else {
                    Outcome::Rejected(message)
                }
            },
        }
    }

    /// Reads a resolution reply: the canonical code, which must be non-empty.
    pub fn get_desire_code(reply: Reply<String>) -> (r: Outcome<String>)
        ensures
            r == code_outcome(reply),
    {
        match settle(reply) {
            Outcome::Succeeded(c) => {
                if c.as_str().is_empty() {
                    Outcome::MissingField
                } else {
                    Outcome::Succeeded(c)
                }
            },
            o => o,
        }
    }

    /// Reads an assist reply: the assist id, which must be present as a
    /// non-empty string in an object payload.
    pub fn aid_desire(reply: Reply<AssistPayload>) -> (r: Outcome<String>)
        ensures
            r == assist_outcome(reply),
    {
        match settle(reply) {
            Outcome::Succeeded(p) => match p {
                AssistPayload::Recognized { aid_id: Some(id) } => {
                    if id.as_str().is_empty() {
                        Outcome::MissingField
                    } else {
                        Outcome::Succeeded(id)
                    }
                },
                _ => Outcome::MissingField,
            },
            Outcome::Rejected(m) => Outcome::Rejected(m),
            Outcome::TransportFailed(e) => Outcome::TransportFailed(e),
            Outcome::DecodeFailed(e) => Outcome::DecodeFailed(e),
            Outcome::MissingField => Outcome::MissingField,
        }
    }

    /// Reads an adopt reply.
    pub fn adopt_aid(reply: Reply<()>) -> (r: Outcome<()>)
        ensures
            r == settled(reply),
    {
        settle(reply)
    }
}

/// The outcome of a reply whose payload is taken as it is.
pub fn settle<T>(reply: Reply<T>) -> (r: Outcome<T>)
    ensures
        r == settled(reply),
{
    match reply {
        Reply::TransportFailed(e) => Outcome::TransportFailed(e),
        Reply::DecodeFailed(e) => Outcome::DecodeFailed(e),
        Reply::Envelope { state, code, message, data } => {
            if is_business_success(state, code) {
                Outcome::Succeeded(data)
            } else {
                Outcome::Rejected(message)
            }
        },
    }
}

/// The pending set keeps exactly the listed wishes with no assist: an item
/// with assists is never in it, and, when the listing names each wish
/// once, every item without assists is.
pub proof fn lemma_pending_filter(items: Seq<ListingItem>, ids: Seq<Seq<char>>)
    requires
        is_pending_set(items, ids),
    ensures
        forall|j: int|
            0 <= j < items.len() && #[trigger] items[j].aid_num == 0 ==> ids.contains(items[j].code@),
        forall|j: int|
            0 <= j < items.len() && ids.contains(#[trigger] items[j].code@) ==> exists|k: int|
                0 <= k < items.len() && items[k].code@ == items[j].code@ && items[k].aid_num == 0,
        codes_of_items(items).no_duplicates() ==> forall|j: int|
            0 <= j < items.len() ==> (#[trigger] items[j].aid_num == 0 <==> ids.contains(items[j].code@)),
{
    assert forall|j: int| 0 <= j < items.len() && #[trigger] items[j].aid_num == 0 implies ids.contains(items[j].code@) by {
        assert(pending_among(items, items[j].code@));
    }
    if codes_of_items(items).no_duplicates() {
        assert forall|j: int| 0 <= j < items.len() implies (#[trigger] items[j].aid_num == 0
            <==> ids.contains(items[j].code@)) by {
            if ids.contains(items[j].code@) {
                let k = choose|k: int| 0 <= k < items.len() && items[k].code@ == items[j].code@ && #[trigger] items[k].aid_num == 0;
                assert(codes_of_items(items)[k] == codes_of_items(items)[j]);
            }
            if items[j].aid_num == 0 {
                assert(pending_among(items, items[j].code@));
            }
        }
    }
}

/// The codes of a listing, in order.
pub open spec fn codes_of_items(items: Seq<ListingItem>) -> Seq<Seq<char>> {
    items.map_values(|i: ListingItem| i.code@)
}

} // verus!
