//! A destination that keeps its subscriptions in memory and delivers each
//! message to all of them.
use crate::destinations::{duplicate_optional_id, DestinationId, InboundMessage, MessageId, OutboundMessage, SubscriptionId};
use crate::error::StomperError;
use crate::table::Table;
use vstd::prelude::*;

verus! {

/// A subscription to an in-memory destination: its identifier, the
/// subscriber's own identifier for it, and how to deliver a message to the
/// subscriber.
pub struct Subscription<F> {
    pub id: SubscriptionId,
    pub subscriber_sub_id: Option<SubscriptionId>,
    pub send_fn: F,
}

/// Whether a delivery function can be called with any message.
pub open spec fn accepts_any_message<F: Fn(SubscriptionId, Option<SubscriptionId>, OutboundMessage) -> Result<(), StomperError>>(f: F) -> bool {
    forall|a: SubscriptionId, b: Option<SubscriptionId>, c: OutboundMessage| #[trigger] call_requires(f, (a, b, c))
}

impl<F: Fn(SubscriptionId, Option<SubscriptionId>, OutboundMessage) -> Result<(), StomperError>> Subscription<F> {
    /// Delivers a message to the subscriber, passing the subscription's two identifiers.
    pub fn send(&self, message: OutboundMessage) -> (r: Result<(), StomperError>)
        requires
            call_requires(self.send_fn, (self.id, self.subscriber_sub_id, message)),
        ensures
            call_ensures(self.send_fn, (self.id, self.subscriber_sub_id, message), r),
    {
        (self.send_fn)(self.id.duplicate(), duplicate_optional_id(&self.subscriber_sub_id), message)
    }
}

/// A lowercase hexadecimal digit.
pub open spec fn is_lower_hex(c: char) -> bool {
    ('0' <= c && c <= '9') || ('a' <= c && c <= 'f')
}

/// Whether a character may stand at position `j` of a version-4 UUID in
/// hyphenated lowercase form: hyphens at 8, 13, 18 and 23, the version `4`
/// at 14, one of `8`, `9`, `a`, `b` (the variant) at 19, hexadecimal digits
/// elsewhere.
pub open spec fn uuid_char_ok(c: char, j: int) -> bool {
    if j == 8 || j == 13 || j == 18 || j == 23 {
        c == '-'
    } else if j == 14 {
        c == '4'
    } else if j == 19 {
        c == '8' || c == '9' || c == 'a' || c == 'b'
    } else {
        is_lower_hex(c)
    }
}

/// Whether a text is a version-4 UUID written as `uuid` writes it: 36
/// characters, hyphenated, in lowercase.
pub open spec fn is_v4_uuid_text(t: Seq<char>) -> bool {
    &&& t.len() == 36
    &&& forall|j: int| 0 <= j < 36 ==> uuid_char_ok(#[trigger] t[j], j)
}

/// Calls `uuid::Uuid::new_v4` and formats the identifier: a random
/// version-4 UUID, which `Display` writes in hyphenated lowercase form. Two
/// calls may return anything of that form.
#[verifier::external_body]
fn random_id_text() -> (s: String)
    ensures
        is_v4_uuid_text(s@),
{
    uuid::Uuid::new_v4().to_string()
}

/// The hexadecimal digit of a value below 16.
pub open spec fn hex_char(d: u64) -> char {
    if d < 10 {
        (d + 48) as char
    } else {
        (d + 87) as char
    }
}

/// The `d`-th hexadecimal digit of a number, counting from the least significant.
pub open spec fn nibble(k: u64, d: int) -> u64 {
    (k >> ((4 * d) as u64)) & 15u64
}

/// The character at position `j` of the identifier made from `k`: a
/// version-4 UUID whose sixteen free digits at 16, 17, 21, 22 and 24 to 35
/// are the hexadecimal digits of `k`, most significant first.
pub open spec fn numbered_id_char(k: u64, j: int) -> char {
    if j == 8 || j == 13 || j == 18 || j == 23 {
        '-'
    } else if j == 14 {
        '4'
    } else if j == 19 {
        '8'
    } else if j == 16 {
        hex_char(nibble(k, 15))
    } else if j == 17 {
        hex_char(nibble(k, 14))
    } else if j == 21 {
        hex_char(nibble(k, 13))
    } else if j == 22 {
        hex_char(nibble(k, 12))
    } else if j >= 24 {
        hex_char(nibble(k, 35 - j))
    } else {
        '0'
    }
}

/// The identifier made from `k`.
pub open spec fn numbered_id(k: u64) -> Seq<char> {
    Seq::new(36, |j: int| numbered_id_char(k, j))
}

proof fn lemma_nibble_small(k: u64, d: int)
    ensures
        nibble(k, d) < 16,
{
    let s = (4 * d) as u64;
    assert((k >> s) & 15u64 < 16u64) by (bit_vector);
}

proof fn lemma_hex_char(d: u64)
    requires
        d < 16,
    ensures
        is_lower_hex(hex_char(d)),
        forall|e: u64| e < 16 && hex_char(e) == hex_char(d) ==> e == d,
{
}

/// A number is determined by its sixteen hexadecimal digits.
proof fn lemma_nibbles_determine(a: u64, b: u64)
    by (bit_vector)
    requires
        (a >> 0u64) & 15u64 == (b >> 0u64) & 15u64,
        (a >> 4u64) & 15u64 == (b >> 4u64) & 15u64,
        (a >> 8u64) & 15u64 == (b >> 8u64) & 15u64,
        (a >> 12u64) & 15u64 == (b >> 12u64) & 15u64,
        (a >> 16u64) & 15u64 == (b >> 16u64) & 15u64,
        (a >> 20u64) & 15u64 == (b >> 20u64) & 15u64,
        (a >> 24u64) & 15u64 == (b >> 24u64) & 15u64,
        (a >> 28u64) & 15u64 == (b >> 28u64) & 15u64,
        (a >> 32u64) & 15u64 == (b >> 32u64) & 15u64,
        (a >> 36u64) & 15u64 == (b >> 36u64) & 15u64,
        (a >> 40u64) & 15u64 == (b >> 40u64) & 15u64,
        (a >> 44u64) & 15u64 == (b >> 44u64) & 15u64,
        (a >> 48u64) & 15u64 == (b >> 48u64) & 15u64,
        (a >> 52u64) & 15u64 == (b >> 52u64) & 15u64,
        (a >> 56u64) & 15u64 == (b >> 56u64) & 15u64,
        (a >> 60u64) & 15u64 == (b >> 60u64) & 15u64,
    ensures
        a == b,
{
}

/// Different numbers make different identifiers.
proof fn lemma_numbered_id_injective(a: u64, b: u64)
    requires
        numbered_id(a) == numbered_id(b),
    ensures
        a == b,
{
    assert forall|d: int| 0 <= d < 16 implies nibble(a, d) == nibble(b, d) by {
        let j = if d == 15 {
            16int
        } else if d == 14 {
            17int
        } else if d == 13 {
            21int
        } else if d == 12 {
            22int
        } else {
            35 - d
        };
        assert(numbered_id(a)[j] == numbered_id(b)[j]);
        assert(numbered_id(a)[j] == numbered_id_char(a, j));
        assert(numbered_id(b)[j] == numbered_id_char(b, j));
        assert(numbered_id_char(a, j) == hex_char(nibble(a, d)));
        assert(numbered_id_char(b, j) == hex_char(nibble(b, d)));
        lemma_nibble_small(a, d);
        lemma_nibble_small(b, d);
        lemma_hex_char(nibble(a, d));
    }
    assert(nibble(a, 0) == nibble(b, 0));
    assert(nibble(a, 1) == nibble(b, 1));
    assert(nibble(a, 2) == nibble(b, 2));
    assert(nibble(a, 3) == nibble(b, 3));
    assert(nibble(a, 4) == nibble(b, 4));
    assert(nibble(a, 5) == nibble(b, 5));
    assert(nibble(a, 6) == nibble(b, 6));
    assert(nibble(a, 7) == nibble(b, 7));
    assert(nibble(a, 8) == nibble(b, 8));
    assert(nibble(a, 9) == nibble(b, 9));
    assert(nibble(a, 10) == nibble(b, 10));
    assert(nibble(a, 11) == nibble(b, 11));
    assert(nibble(a, 12) == nibble(b, 12));
    assert(nibble(a, 13) == nibble(b, 13));
    assert(nibble(a, 14) == nibble(b, 14));
    assert(nibble(a, 15) == nibble(b, 15));
    lemma_nibbles_determine(a, b);
}

/// The hexadecimal digit of a value below 16, as text.
fn hex_str(d: u64) -> (s: &'static str)
    requires
        d < 16,
    ensures
        s@ == seq![hex_char(d)],
{
    if d == 0 {
        proof {
            reveal_strlit("0");
        }
        "0"
    } else if d == 1 {
        proof {
            reveal_strlit("1");
        }
        "1"
    } else if d == 2 {
        proof {
            reveal_strlit("2");
        }
        "2"
    } else if d == 3 {
        proof {
            reveal_strlit("3");
        }
        "3"
    } else if d == 4 {
        proof {
            reveal_strlit("4");
        }
        "4"
    } else if d == 5 {
        proof {
            reveal_strlit("5");
        }
        "5"
    } else if d == 6 {
        proof {
            reveal_strlit("6");
        }
        "6"
    } else if d == 7 {
        proof {
            reveal_strlit("7");
        }
        "7"
    } else if d == 8 {
        proof {
            reveal_strlit("8");
        }
        "8"
    } else if d == 9 {
        proof {
            reveal_strlit("9");
        }
        "9"
    } else if d == 10 {
        proof {
            reveal_strlit("a");
        }
        "a"
    } else if d == 11 {
        proof {
            reveal_strlit("b");
        }
        "b"
    } else if d == 12 {
        proof {
            reveal_strlit("c");
        }
        "c"
    } else if d == 13 {
        proof {
            reveal_strlit("d");
        }
        "d"
    } else if d == 14 {
        proof {
            reveal_strlit("e");
        }
        "e"
    } else {
        proof {
            reveal_strlit("f");
        }
        "f"
    }
}

/// The text of the character at position `j` of the identifier made from `k`.
fn numbered_id_piece(k: u64, j: usize) -> (s: &'static str)
    requires
        j < 36,
    ensures
        s@ == seq![numbered_id_char(k, j as int)],
{
    if j == 8 || j == 13 || j == 18 || j == 23 {
        proof {
            reveal_strlit("-");
        }
        "-"
    } else if j == 14 {
        proof {
            reveal_strlit("4");
        }
        "4"
    } else if j == 19 {
        proof {
            reveal_strlit("8");
        }
        "8"
    } else if j == 16 || j == 17 || j == 21 || j == 22 || j >= 24 {
        let d: u64 = if j == 16 {
            15
        } else if j == 17 {
            14
        } else if j == 21 {
            13
        } else if j == 22 {
            12
        } else {
            (35 - j) as u64
        };
        let digit = (k >> (4 * d)) & 15u64;
        proof {
            assert(digit == nibble(k, d as int));
            lemma_nibble_small(k, d as int);
        }
        hex_str(digit)
    } else {
        proof {
            reveal_strlit("0");
        }
        "0"
    }
}

/// The identifier made from `k`, as text.
fn numbered_id_text(k: u64) -> (s: String)
    ensures
        s@ == numbered_id(k),
{
    let mut s = String::new();
    let mut j: usize = 0;
    while j < 36
        invariant
            j <= 36,
            s@ == numbered_id(k).subrange(0, j as int),
        decreases 36 - j,
    {
        let piece = numbered_id_piece(k, j);
        s.append(piece);
        proof {
            assert(s@ =~= numbered_id(k).subrange(0, j + 1));
        }
        j = j + 1;
    }
    assert(numbered_id(k).subrange(0, 36) =~= numbered_id(k));
    s
}

/// The identifier made from any number is a version-4 UUID text.
proof fn lemma_numbered_id_is_uuid(k: u64)
    ensures
        is_v4_uuid_text(numbered_id(k)),
{
    assert forall|j: int| 0 <= j < 36 implies uuid_char_ok(#[trigger] numbered_id(k)[j], j) by {
        lemma_nibble_small(k, 15);
        lemma_nibble_small(k, 14);
        lemma_nibble_small(k, 13);
        lemma_nibble_small(k, 12);
        lemma_nibble_small(k, 35 - j);
        lemma_hex_char(nibble(k, 15));
        lemma_hex_char(nibble(k, 14));
        lemma_hex_char(nibble(k, 13));
        lemma_hex_char(nibble(k, 12));
        lemma_hex_char(nibble(k, 35 - j));
    }
}

/// The identifiers made from the numbers below `k`.
spec fn numbered_ids(k: nat) -> Set<Seq<char>>
    decreases k,
{
    if k == 0 {
        Set::empty()
    } else {
        numbered_ids((k - 1) as nat).insert(numbered_id((k - 1) as u64))
    }
}

/// The identifiers made from the numbers below `k` are `k` different ones.
proof fn lemma_numbered_ids(k: nat)
    requires
        k <= 0x1_0000_0000_0000_0000,
    ensures
        numbered_ids(k).finite(),
        numbered_ids(k).len() == k,
        forall|t: Seq<char>| #[trigger] numbered_ids(k).contains(t) ==> exists|j: u64| j < k && t == numbered_id(j),
    decreases k,
{
    if k > 0 {
        let p = (k - 1) as nat;
        lemma_numbered_ids(p);
        let c = numbered_id(p as u64);
        if numbered_ids(p).contains(c) {
            let j = choose|j: u64| j < p && c == numbered_id(j);
            lemma_numbered_id_injective(j, p as u64);
        }
        vstd::set::axiom_set_insert_len(numbered_ids(p), c);
        assert forall|t: Seq<char>| #[trigger] numbered_ids(k).contains(t) implies exists|j: u64| j < k && t
            == numbered_id(j) by {
            if t == c {
                assert((p as u64) < k && t == numbered_id(p as u64));
            } else {
                assert(numbered_ids(p).contains(t));
            }
        }
    }
}

/// A finite set of texts that holds the identifiers made from all numbers
/// up to `k` has more than `k` elements.
proof fn lemma_numbered_ids_fill(dom: Set<Seq<char>>, k: u64)
    requires
        dom.finite(),
        forall|j: u64| j <= k ==> dom.contains(#[trigger] numbered_id(j)),
    ensures
        k + 1 <= dom.len(),
{
    lemma_numbered_ids((k + 1) as nat);
    assert forall|t: Seq<char>| numbered_ids((k + 1) as nat).contains(t) implies dom.contains(t) by {
        let j = choose|j: u64| j < k + 1 && t == numbered_id(j);
        assert(dom.contains(numbered_id(j)));
    }
    vstd::set_lib::lemma_len_subset(numbered_ids((k + 1) as nat), dom);
}

/// The state of an in-memory destination, as the contracts see it.
pub struct BackendView<F> {
    pub id: Seq<char>,
    /// The subscriptions by identifier.
    pub subscriptions: Map<Seq<char>, Subscription<F>>,
}

/// What the subscriber of a subscription is told when it is cancelled: its
/// own identifier for the subscription, if the subscription is known.
pub open spec fn removed_subscriber_id<F>(b: BackendView<F>, id: Seq<char>) -> Option<SubscriptionId> {
    if b.subscriptions.contains_key(id) {
        b.subscriptions[id].subscriber_sub_id
    } else {
        None
    }
}

/// The subscriptions after a subscription is added under `id`.
pub open spec fn subscriptions_after_add<F>(
    b: BackendView<F>,
    id: SubscriptionId,
    subscriber_sub_id: Option<SubscriptionId>,
    send_fn: F,
) -> Map<Seq<char>, Subscription<F>> {
    b.subscriptions.insert(id@, Subscription { id, subscriber_sub_id, send_fn })
}

/// Cancelling a subscription just added gives the subscriber back its own
/// identifier for it, and leaves the destination's other subscriptions as
/// they were.
pub proof fn law_cancel_after_subscribe<F>(
    b: BackendView<F>,
    id: SubscriptionId,
    subscriber_sub_id: Option<SubscriptionId>,
    send_fn: F,
)
    ensures
        removed_subscriber_id(
            BackendView { id: b.id, subscriptions: subscriptions_after_add(b, id, subscriber_sub_id, send_fn) },
            id@,
        ) == subscriber_sub_id,
        subscriptions_after_add(b, id, subscriber_sub_id, send_fn).remove(id@) == b.subscriptions.remove(id@),
{
    assert(subscriptions_after_add(b, id, subscriber_sub_id, send_fn).remove(id@) =~= b.subscriptions.remove(id@));
}

/// Two subscriptions added one after the other under identifiers that were
/// free, as [`InMemDestinationBackend::add_subscription`] picks them, are both
/// kept, each with its own subscriber, beside all earlier subscriptions.
pub proof fn law_fresh_subscriptions_accumulate<F>(
    b: BackendView<F>,
    first: SubscriptionId,
    first_sub_id: Option<SubscriptionId>,
    first_fn: F,
    second: SubscriptionId,
    second_sub_id: Option<SubscriptionId>,
    second_fn: F,
)
    requires
        !b.subscriptions.contains_key(first@),
        !subscriptions_after_add(b, first, first_sub_id, first_fn).contains_key(second@),
    ensures
        ({
            let after = subscriptions_after_add(
                BackendView { id: b.id, subscriptions: subscriptions_after_add(b, first, first_sub_id, first_fn) },
                second,
                second_sub_id,
                second_fn,
            );
            &&& first@ != second@
            &&& after.contains_key(first@) && after[first@].subscriber_sub_id == first_sub_id
            &&& after.contains_key(second@) && after[second@].subscriber_sub_id == second_sub_id
            &&& forall|k: Seq<char>| #[trigger] b.subscriptions.contains_key(k) ==> after.contains_key(k)
                && after[k] == b.subscriptions[k]
        }),
{
}

/// The subscriptions of an in-memory destination.
pub struct InMemDestinationBackend<F> {
    id: DestinationId,
    subscriptions: Table<Subscription<F>>,
}

impl<F> View for InMemDestinationBackend<F> {
    type V = BackendView<F>;

    closed spec fn view(&self) -> BackendView<F> {
        BackendView { id: self.id@, subscriptions: self.subscriptions@ }
    }
}

impl<F: Fn(SubscriptionId, Option<SubscriptionId>, OutboundMessage) -> Result<(), StomperError>> InMemDestinationBackend<F> {
    /// Each subscription is stored under its own identifier and accepts any message.
    pub closed spec fn wf(&self) -> bool {
        &&& self.subscriptions.wf()
        &&& forall|k: Seq<char>| #[trigger] self.subscriptions@.contains_key(k) ==> {
            &&& self.subscriptions@[k].id@ == k
            &&& accepts_any_message(self.subscriptions@[k].send_fn)
        }
    }

    /// A destination without subscriptions.
    pub fn new(id: DestinationId) -> (b: InMemDestinationBackend<F>)
        ensures
            b.wf(),
            b@.id == id@,
            b@.subscriptions == Map::<Seq<char>, Subscription<F>>::empty(),
    {
        InMemDestinationBackend { id, subscriptions: Table::new() }
    }

    /// The destination's identifier.
    pub fn id(&self) -> (id: &DestinationId)
        ensures
            id@ == self@.id,
    {
        &self.id
    }

    /// Records a subscription under the given identifier, replacing any with
    /// the same identifier, and returns what the subscriber is told: the
    /// destination, its own identifier, and the new subscription's identifier.
    pub fn add_subscription_with_id(
        &mut self,
        id: SubscriptionId,
        subscriber_sub_id: Option<SubscriptionId>,
        send_fn: F,
    ) -> (r: (DestinationId, Option<SubscriptionId>, Result<SubscriptionId, StomperError>))
        requires
            old(self).wf(),
            accepts_any_message(send_fn),
        ensures
            final(self).wf(),
            final(self)@.id == old(self)@.id,
            final(self)@.subscriptions == subscriptions_after_add(old(self)@, id, subscriber_sub_id, send_fn),
            r.0@ == old(self)@.id,
            r.1 == subscriber_sub_id,
            r.2 == Ok::<SubscriptionId, StomperError>(id),
    {
        let reported_sub_id = duplicate_optional_id(&subscriber_sub_id);
        let reported_id = id.duplicate();
        let key = id.duplicate();
        self.subscriptions.insert(key, Subscription { id, subscriber_sub_id, send_fn });
        (self.id.duplicate(), reported_sub_id, Ok(reported_id))
    }

    /// An identifier that no subscription has, of the form of a version-4
    /// UUID: the first of the identifiers made from 0, 1, 2, ... that is
    /// free. One is free among the first `n + 1`, for `n` subscriptions.
    fn unused_id(&self) -> (id: SubscriptionId)
        requires
            self.wf(),
        ensures
            !self@.subscriptions.contains_key(id@),
            is_v4_uuid_text(id@),
    {
        let n = self.subscriptions.len();
        proof {
            self.subscriptions.lemma_dom_size();
        }
        let mut k: u64 = 0;
        loop
            invariant
                k <= n,
                n == self.subscriptions.spec_len(),
                self@.subscriptions.dom().finite(),
                self@.subscriptions.dom().len() <= n,
                forall|j: u64| j < k ==> self@.subscriptions.contains_key(#[trigger] numbered_id(j)),
            decreases n - k,
        {
            let candidate = SubscriptionId(numbered_id_text(k));
            match self.subscriptions.get(&candidate) {
                None => {
                    proof {
                        lemma_numbered_id_is_uuid(k);
                    }
                    return candidate;
                },
                Some(_) => {
                    proof {
                        assert forall|j: u64| j <= k implies self@.subscriptions.dom().contains(
                            #[trigger] numbered_id(j),
                        ) by {
                            if j < k {
                                assert(self@.subscriptions.contains_key(numbered_id(j)));
                            }
                        }
                        lemma_numbered_ids_fill(self@.subscriptions.dom(), k);
                    }
                    k = k + 1;
                },
            }
        }
    }

    /// Records a subscription under a fresh random identifier, which no
    /// subscription of the destination has, so that none is replaced; should
    /// the random identifier be taken, a free one is chosen instead. See
    /// [`InMemDestinationBackend::add_subscription_with_id`].
    pub fn add_subscription(
        &mut self,
        subscriber_sub_id: Option<SubscriptionId>,
        send_fn: F,
    ) -> (r: (DestinationId, Option<SubscriptionId>, Result<SubscriptionId, StomperError>))
        requires
            old(self).wf(),
            accepts_any_message(send_fn),
        ensures
            final(self).wf(),
            final(self)@.id == old(self)@.id,
            r.2 matches Ok(id) && id@.len() == 36 && is_v4_uuid_text(id@) && !old(self)@.subscriptions.contains_key(id@)
                && final(self)@.subscriptions == subscriptions_after_add(old(self)@, id, subscriber_sub_id, send_fn),
            forall|k: Seq<char>| #[trigger] old(self)@.subscriptions.contains_key(k) ==> final(self)@.subscriptions.contains_key(k)
                && final(self)@.subscriptions[k] == old(self)@.subscriptions[k],
            final(self)@.subscriptions.dom().len() == old(self)@.subscriptions.dom().len() + 1,
            r.0@ == old(self)@.id,
            r.1 == subscriber_sub_id,
    {
        proof {
            self.subscriptions.lemma_dom_size();
        }
        let drawn = SubscriptionId(random_id_text());
        let id = match self.subscriptions.get(&drawn) {
            None => drawn,
            Some(_) => self.unused_id(),
        };
        let ghost key = id@;
        let r = self.add_subscription_with_id(id, subscriber_sub_id, send_fn);
        proof {
            assert(self@.subscriptions.dom() =~= old(self)@.subscriptions.dom().insert(key));
            vstd::set::axiom_set_insert_len(old(self)@.subscriptions.dom(), key);
        }
        r
    }

    /// Forgets a subscription, and returns what the subscriber is told: its
    /// own identifier for the subscription, if the subscription was known, and
    /// the identifier asked for.
    pub fn remove_subscription(&mut self, sub_id: SubscriptionId) -> (r: (
        Option<SubscriptionId>,
        Result<SubscriptionId, StomperError>,
    ))
        requires
            old(self).wf(),
        ensures
            final(self).wf(),
            final(self)@.id == old(self)@.id,
            final(self)@.subscriptions == old(self)@.subscriptions.remove(sub_id@),
            r.0 == removed_subscriber_id(old(self)@, sub_id@),
            r.1 == Ok::<SubscriptionId, StomperError>(sub_id),
    {
        let removed = self.subscriptions.remove(&sub_id);
        let subscriber_sub_id = match removed {
            Some(subscription) => subscription.subscriber_sub_id,
            None => None,
        };
        (subscriber_sub_id, Ok(sub_id))
    }

    /// Delivers a message to every subscription, as an [`OutboundMessage`]
    /// from this destination with the given identifier, and drops each
    /// subscription whose delivery failed. Returns what the sender is told:
    /// its own identifier for the message, and the message's identifier.
    pub fn send_with_id(&mut self, message: InboundMessage, message_id: MessageId) -> (r: (
        Option<MessageId>,
        Result<MessageId, StomperError>,
    ))
        requires
            old(self).wf(),
        ensures
            final(self).wf(),
            final(self)@.id == old(self)@.id,
            forall|k: Seq<char>| #[trigger] final(self)@.subscriptions.contains_key(k) ==> old(
                self,
            )@.subscriptions.contains_key(k) && final(self)@.subscriptions[k] == old(self)@.subscriptions[k],
            forall|k: Seq<char>| #[trigger] old(self)@.subscriptions.contains_key(k) ==> exists|
                m: OutboundMessage,
                result: Result<(), StomperError>,
            |
                {
                    &&& m@ == (old(self)@.id, message_id@, message.body@)
                    &&& call_ensures(
                        old(self)@.subscriptions[k].send_fn,
                        (old(self)@.subscriptions[k].id, old(self)@.subscriptions[k].subscriber_sub_id, m),
                        result,
                    )
                    &&& (result is Ok <==> final(self)@.subscriptions.contains_key(k))
                },
            r.0 == message.sender_message_id,
            r.1 == Ok::<MessageId, StomperError>(message_id),
    {
        let ghost initial = self@.subscriptions;
        let ghost body = message.body@;
        let out = OutboundMessage { destination: self.id.duplicate(), message_id: message_id.duplicate(), body: message.body };
        proof {
            self.subscriptions.lemma_entries_agree();
        }
        let n = self.subscriptions.len();
        let mut dead: Vec<SubscriptionId> = Vec::new();
        let ghost mut delivered: Set<Seq<char>> = Set::empty();
        let mut i: usize = 0;
        while i < n
            invariant
                self.wf(),
                self@.subscriptions == initial,
                self@.id == old(self)@.id,
                n == self.subscriptions.spec_len(),
                i <= n,
                out@ == (old(self)@.id, message_id@, body),
                forall|t: int| 0 <= t < self.subscriptions.spec_len() ==> initial.contains_key(
                    #[trigger] self.subscriptions.spec_entry(t).0@,
                ) && initial[self.subscriptions.spec_entry(t).0@] == self.subscriptions.spec_entry(t).1,
                forall|t: int, u: int| 0 <= t < u < self.subscriptions.spec_len() ==> #[trigger] self.subscriptions.spec_entry(t).0@
                    != #[trigger] self.subscriptions.spec_entry(u).0@,
                forall|t: int| #![trigger self.subscriptions.spec_entry(t)] 0 <= t < i ==> exists|
                    m: OutboundMessage,
                    result: Result<(), StomperError>,
                |
                    {
                        &&& m@ == out@
                        &&& call_ensures(
                            self.subscriptions.spec_entry(t).1.send_fn,
                            (self.subscriptions.spec_entry(t).1.id, self.subscriptions.spec_entry(t).1.subscriber_sub_id, m),
                            result,
                        )
                        &&& (result is Ok <==> delivered.contains(self.subscriptions.spec_entry(t).0@))
                    },
                forall|k: Seq<char>| delivered.contains(k) ==> exists|t: int|
                    0 <= t < i && #[trigger] self.subscriptions.spec_entry(t).0@ == k,
                forall|j: int| #![trigger dead@[j]] 0 <= j < dead@.len() ==> exists|t: int|
                    0 <= t < i && self.subscriptions.spec_entry(t).0@ == dead@[j]@ && !delivered.contains(dead@[j]@),
                forall|t: int| #![trigger self.subscriptions.spec_entry(t)] 0 <= t < i && !delivered.contains(self.subscriptions.spec_entry(t).0@)
                    ==> exists|j: int| 0 <= j < dead@.len() && #[trigger] dead@[j]@ == self.subscriptions.spec_entry(t).0@,
            decreases n - i,
        {
            let entry = self.subscriptions.entry(i);
            let copy = out.duplicate();
            proof {
                assert(self.subscriptions@.contains_key(entry.0@));
                assert(accepts_any_message(entry.1.send_fn));
                assert(call_requires(entry.1.send_fn, (entry.1.id, entry.1.subscriber_sub_id, copy)));
            }
            let ghost dead_before = dead@;
            let result = entry.1.send(copy);
            proof {
                let k = entry.0@;
                if result is Ok {
                    delivered = delivered.insert(k);
                }
            }
            if result.is_err() {
                dead.push(entry.0.duplicate());
            }
            proof {
                let t = i as int;
                assert forall|tt: int| #![trigger self.subscriptions.spec_entry(tt)] 0 <= tt < i + 1 && !delivered.contains(
                    self.subscriptions.spec_entry(tt).0@,
                ) implies exists|jj: int| 0 <= jj < dead@.len() && #[trigger] dead@[jj]@ == self.subscriptions.spec_entry(tt).0@ by {
                    if tt == t {
                        assert(dead@[dead@.len() - 1]@ == self.subscriptions.spec_entry(tt).0@);
                    } else {
                        let jj = choose|jj: int| 0 <= jj < dead_before.len() && #[trigger] dead_before[jj]@ == self.subscriptions.spec_entry(tt).0@;
                        assert(dead@[jj] == dead_before[jj]);
                    }
                }
                assert(exists|m: OutboundMessage, result2: Result<(), StomperError>| {
                    &&& m@ == out@
                    &&& call_ensures(
                        self.subscriptions.spec_entry(t).1.send_fn,
                        (self.subscriptions.spec_entry(t).1.id, self.subscriptions.spec_entry(t).1.subscriber_sub_id, m),
                        result2,
                    )
                    &&& (result2 is Ok <==> delivered.contains(self.subscriptions.spec_entry(t).0@))
                }) by {
                    assert(copy@ == out@);
                }
            }
            i = i + 1;
        }
        let mut j: usize = 0;
        while j < dead.len()
            invariant
                self.wf(),
                self@.id == old(self)@.id,
                j <= dead@.len(),
                forall|k: Seq<char>| #[trigger] self@.subscriptions.contains_key(k) <==> initial.contains_key(k)
                    && !(exists|jj: int| 0 <= jj < j && dead@[jj]@ == k),
                forall|k: Seq<char>| #[trigger] self@.subscriptions.contains_key(k) ==> self@.subscriptions[k] == initial[k],
            decreases dead@.len() - j,
        {
            let ghost before = self@.subscriptions;
            let _ = self.subscriptions.remove(&dead[j]);
            proof {
                assert forall|k: Seq<char>| #[trigger] self@.subscriptions.contains_key(k) <==> initial.contains_key(k)
                    && !(exists|jj: int| 0 <= jj < j + 1 && dead@[jj]@ == k) by {
                    if exists|jj: int| 0 <= jj < j + 1 && dead@[jj]@ == k {
                        let jj = choose|jj: int| 0 <= jj < j + 1 && dead@[jj]@ == k;
                        if jj < j {
                            assert(exists|jx: int| 0 <= jx < j && dead@[jx]@ == k);
                        }
                    } else {
                        assert(!(exists|jx: int| 0 <= jx < j && dead@[jx]@ == k)) by {
                            if exists|jx: int| 0 <= jx < j && dead@[jx]@ == k {
                                let jx = choose|jx: int| 0 <= jx < j && dead@[jx]@ == k;
                                assert(0 <= jx < j + 1 && dead@[jx]@ == k);
                            }
                        }
                    }
                }
            }
            j = j + 1;
        }
        (message.sender_message_id, Ok(message_id))
    }

    /// Delivers a message under a fresh random identifier; see
    /// [`InMemDestinationBackend::send_with_id`].
    pub fn send(&mut self, message: InboundMessage) -> (r: (Option<MessageId>, Result<MessageId, StomperError>))
        requires
            old(self).wf(),
        ensures
            final(self).wf(),
            final(self)@.id == old(self)@.id,
            r.1 matches Ok(message_id) && message_id@.len() == 36 && is_v4_uuid_text(message_id@) && forall|k: Seq<char>| #[trigger] old(self)@.subscriptions.contains_key(k) ==> exists|
                m: OutboundMessage,
                result: Result<(), StomperError>,
            |
                {
                    &&& m@ == (old(self)@.id, message_id@, message.body@)
                    &&& call_ensures(
                        old(self)@.subscriptions[k].send_fn,
                        (old(self)@.subscriptions[k].id, old(self)@.subscriptions[k].subscriber_sub_id, m),
                        result,
                    )
                    &&& (result is Ok <==> final(self)@.subscriptions.contains_key(k))
                },
            forall|k: Seq<char>| #[trigger] final(self)@.subscriptions.contains_key(k) ==> old(
                self,
            )@.subscriptions.contains_key(k) && final(self)@.subscriptions[k] == old(self)@.subscriptions[k],
            r.0 == message.sender_message_id,
    {
        let message_id = MessageId(random_id_text());
        self.send_with_id(message, message_id)
    }
}

} // verus!
