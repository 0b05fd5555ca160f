use crate::envelope::{builder_parts, plaintext_typ, to_pushed, EnvParts};
use crate::idgen::fresh_uuid;
use vstd::prelude::*;

verus! {

/// The header fields shared by every message kind, as the contracts see them.
pub struct HeaderState {
    pub id: Option<Seq<char>>,
    pub to: Option<Seq<Seq<char>>>,
    pub from: Option<Seq<char>>,
    pub created_time: Option<u64>,
    pub expires_time: Option<u64>,
}

/// The header state once the identifier is set (last call wins).
pub open spec fn with_id(h: HeaderState, id: Seq<char>) -> HeaderState {
    HeaderState { id: Some(id), ..h }
}

/// The header state once one more recipient is appended.
pub open spec fn with_to(h: HeaderState, value: Seq<char>) -> HeaderState {
    HeaderState { to: to_pushed(h.to, value), ..h }
}

/// The header state once the sender is set (last call wins).
pub open spec fn with_from(h: HeaderState, from: Seq<char>) -> HeaderState {
    HeaderState { from: Some(from), ..h }
}

/// The header state once the creation time is set (last call wins).
pub open spec fn with_created_time(h: HeaderState, t: u64) -> HeaderState {
    HeaderState { created_time: Some(t), ..h }
}

/// The header state once the expiration time is set (last call wins).
pub open spec fn with_expires_time(h: HeaderState, t: u64) -> HeaderState {
    HeaderState { expires_time: Some(t), ..h }
}

/// An optional recipient list as a plain sequence, an absent list being empty.
pub open spec fn opt_list(o: Option<Seq<Seq<char>>>) -> Seq<Seq<char>> {
    match o {
        None => Seq::empty(),
        Some(s) => s,
    }
}

/// The recipient list of a header state, as a plain sequence.
pub open spec fn to_list(h: HeaderState) -> Seq<Seq<char>> {
    opt_list(h.to)
}

/// A recipient list once a further batch is appended to it, one by one.
pub open spec fn appended_to(orig: Option<Seq<Seq<char>>>, added: Seq<Seq<char>>) -> Option<
    Seq<Seq<char>>,
> {
    if added.len() == 0 {
        orig
    } else {
        Some(opt_list(orig) + added)
    }
}

/// A recipient list once an optional batch is merged into it.
pub open spec fn merged_to(orig: Option<Seq<Seq<char>>>, add: Option<Seq<Seq<char>>>) -> Option<
    Seq<Seq<char>>,
> {
    match add {
        None => orig,
        Some(vs) => appended_to(orig, vs),
    }
}

/// The builder contents once these headers are merged in: recipients are
/// appended in call order; sender, creation time and expiration time each
/// replace the builder's value only where set here; the rest is untouched.
pub open spec fn merged_parts(p: EnvParts, h: HeaderState) -> EnvParts {
    EnvParts {
        to: merged_to(p.to, h.to),
        from: if h.from is Some {
            h.from
        } else {
            p.from
        },
        created_time: if h.created_time is Some {
            h.created_time
        } else {
            p.created_time
        },
        expires_time: if h.expires_time is Some {
            h.expires_time
        } else {
            p.expires_time
        },
        ..p
    }
}

/// The header state of a freshly created builder: every field absent.
pub open spec fn empty_headers() -> HeaderState {
    HeaderState { id: None, to: None, from: None, created_time: None, expires_time: None }
}

/// How the shared headers show up on a finished message: the identifier set
/// here or else a fresh 36-character one, the fixed plain `typ`, and the
/// recipients, sender, creation and expiration times exactly as set.
pub open spec fn header_fields_ok(h: HeaderState, m: didcomm::Message) -> bool {
    &&& (match h.id {
        Some(i) => m.id@ == i,
        None => m.id@.len() == 36,
    })
    &&& m.typ@ == plaintext_typ()
    &&& m.to.deep_view() == merged_to(None, h.to)
    &&& m.from.deep_view() == h.from
    &&& m.created_time == h.created_time
    &&& m.expires_time == h.expires_time
}

/// Law: a last-call-wins header setter applied twice with the same value
/// leaves the same header state as applying it once. The build contracts
/// depend on nothing but that state, so the finished envelope agrees too.
pub proof fn lemma_header_setters_idempotent(h: HeaderState, s: Seq<char>, t: u64)
    ensures
        with_id(with_id(h, s), s) == with_id(h, s),
        with_from(with_from(h, s), s) == with_from(h, s),
        with_created_time(with_created_time(h, t), t) == with_created_time(h, t),
        with_expires_time(with_expires_time(h, t), t) == with_expires_time(h, t),
{
}

/// Law: the recipient setter accumulates: adding one recipient and then a
/// second appends both, in call order, after whatever was already there.
pub proof fn lemma_to_accumulates(h: HeaderState, a: Seq<char>, b: Seq<char>)
    ensures
        to_list(with_to(with_to(h, a), b)) == to_list(h) + seq![a, b],
{
    assert(to_list(with_to(with_to(h, a), b)) =~= to_list(h) + seq![a, b]);
}

/// Relies on chrono::Utc::now: the current wall-clock time, taken as whole
/// seconds since the Unix epoch. The value depends on the clock, so nothing
/// is promised of it.
#[verifier::external_body]
fn unix_now() -> u64 {
    chrono::Utc::now().timestamp() as u64
}

/// The header fields shared by every builder: identifier, recipients, sender,
/// creation and expiration timestamps, each absent until its setter is called.
#[derive(Debug, Clone)]
pub struct CommonHeaders {
    pub(crate) id: Option<String>,
    pub(crate) to: Option<Vec<String>>,
    pub(crate) from: Option<String>,
    pub(crate) created_time: Option<u64>,
    pub(crate) expires_time: Option<u64>,
}

impl View for CommonHeaders {
    type V = HeaderState;

    closed spec fn view(&self) -> HeaderState {
        HeaderState {
            id: self.id.deep_view(),
            to: self.to.deep_view(),
            from: self.from.deep_view(),
            created_time: self.created_time,
            expires_time: self.expires_time,
        }
    }
}

impl CommonHeaders {
    /// Fresh headers with every field absent.
    pub(crate) fn new() -> (r: Self)
        ensures
            r@ == (HeaderState {
                id: None,
                to: None,
                from: None,
                created_time: None,
                expires_time: None,
            }),
    {
        CommonHeaders { id: None, to: None, from: None, created_time: None, expires_time: None }
    }

    /// Sets the message identifier; the last call wins.
    pub(crate) fn set_id(self, id: String) -> (r: Self)
        ensures
            r@ == with_id(self@, id@),
    {
        CommonHeaders { id: Some(id), ..self }
    }

    /// Appends one recipient; repeated calls accumulate in call order.
    pub(crate) fn add_to(self, value: String) -> (r: Self)
        ensures
            r@ == with_to(self@, value@),
    {
        let ghost pre = self@;
        let to = match self.to {
            Some(mut v) => {
                v.push(value);
                Some(v)
            },
            None => {
                let mut v: Vec<String> = Vec::new();
                v.push(value);
                Some(v)
            },
        };
        let r = CommonHeaders { to, ..self };
        proof {
            match pre.to {
                Some(s) => {
                    assert(r@.to->0 =~= s.push(value@));
                },
                None => {
                    assert(r@.to->0 =~= seq![value@]);
                },
            }
        }
        r
    }

    /// Sets the sender; the last call wins.
    pub(crate) fn set_from(self, from: String) -> (r: Self)
        ensures
            r@ == with_from(self@, from@),
    {
        CommonHeaders { from: Some(from), ..self }
    }

    /// Sets the creation time: to the given epoch-seconds value, or to the
    /// current wall-clock time when none is given.
    pub(crate) fn set_created_time(self, created_time: Option<u64>) -> (r: Self)
        ensures
            (match created_time {
                Some(t) => r@ == with_created_time(self@, t),
                None => exists|t: u64| r@ == with_created_time(self@, t),
            }),
    {
        let t = match created_time {
            Some(t) => t,
            None => unix_now(),
        };
        let r = CommonHeaders { created_time: Some(t), ..self };
        proof {
            assert(r@ == with_created_time(self@, t));
        }
        r
    }

    /// Sets the expiration time; the last call wins.
    pub(crate) fn set_expires_time(self, expires_time: u64) -> (r: Self)
        ensures
            r@ == with_expires_time(self@, expires_time),
    {
        CommonHeaders { expires_time: Some(expires_time), ..self }
    }

    /// The identifier the message will carry: the one set here, or a freshly
    /// generated 36-character one.
    pub(crate) fn resolved_id(&self) -> (r: String)
        ensures
            (match self@.id {
                Some(i) => r@ == i,
                None => r@.len() == 36,
            }),
    {
        match &self.id {
            Some(i) => i.clone(),
            None => fresh_uuid(),
        }
    }

    /// Merges these headers into an envelope under construction, in the fixed
    /// order recipients, sender, creation time, expiration time; each step is
    /// a no-op where the field was never set.
    pub(crate) fn merge_into(self, b: didcomm::MessageBuilder) -> (r: didcomm::MessageBuilder)
        ensures
            builder_parts(r) == merged_parts(builder_parts(b), self@),
    {
        let ghost h = self@;
        let ghost p0 = builder_parts(b);
        let CommonHeaders { id: _, to, from, created_time, expires_time } = self;
        let mut b = b;
        if let Some(vs) = to {
            let ghost dv = vs.deep_view();
            let n = vs.len();
            let mut i: usize = 0;
            while i < n
                invariant
                    i <= n,
                    n == vs.len(),
                    dv == vs.deep_view(),
                    builder_parts(b) == (EnvParts { to: appended_to(p0.to, dv.take(i as int)), ..p0 }),
                decreases n - i,
            {
                let value = vs[i].clone();
                b = b.to(value);
                proof {
                    lemma_appended_to_step(p0.to, dv.take(i as int), dv[i as int]);
                    assert(dv.take(i as int + 1) =~= dv.take(i as int).push(dv[i as int]));
                }
                i += 1;
            }
            proof {
                assert(dv.take(n as int) =~= dv);
            }
        }
        if let Some(f) = from {
            b = b.from(f);
        }
        if let Some(t) = created_time {
            b = b.created_time(t);
        }
        if let Some(t) = expires_time {
            b = b.expires_time(t);
        }
        b
    }
}

/// Appending recipients one at a time agrees with appending them as a batch.
proof fn lemma_appended_to_step(orig: Option<Seq<Seq<char>>>, added: Seq<Seq<char>>, x: Seq<char>)
    ensures
        to_pushed(appended_to(orig, added), x) == appended_to(orig, added.push(x)),
{
    if added.len() == 0 {
        match orig {
            None => {
                assert(seq![x] =~= opt_list(orig) + added.push(x));
            },
            Some(s) => {
                assert(s.push(x) =~= opt_list(orig) + added.push(x));
            },
        }
    } else {
        assert((opt_list(orig) + added).push(x) =~= opt_list(orig) + added.push(x));
    }
}

} // verus!
