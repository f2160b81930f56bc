//! Device identities: opaque, long-lived tokens identifying a client.
//!
//! A device identity is created on first contact and persisted as a record
//! keyed by its own token. A token presented by a client resolves to at
//! most one record; an unknown token is never adopted as an alias — the
//! client is issued a fresh one instead.

use vstd::prelude::*;

verus! {

/// A persisted device identity: the token itself and the user agent seen
/// when it was created.
#[derive(Clone, Debug)]
pub struct DeviceRecord {
    /// The opaque identity token, also the key of the record.
    pub id: String,
    /// The user agent of the client the identity was minted for.
    pub user_agent: String,
}

/// Mathematical image of [`DeviceRecord`].
pub struct DeviceRecordView {
    pub id: Seq<char>,
    pub user_agent: Seq<char>,
}

impl View for DeviceRecord {
    type V = DeviceRecordView;

    open spec fn view(&self) -> DeviceRecordView {
        DeviceRecordView { id: self.id@, user_agent: self.user_agent@ }
    }
}

/// What a resolve call hands back: the device identity to use from now on,
/// and whether it was created by this very call.
#[derive(Clone, Debug, PartialEq, Eq)]
pub struct ResolvedIdentity {
    /// The token identifying the device.
    pub device_id: String,
    /// True exactly when the call minted and persisted a new identity.
    pub created: bool,
}

/// Why a resolve call failed.
#[derive(Clone, Copy, Debug, PartialEq, Eq)]
pub enum IdentityError {
    /// The store could not persist the new identity record: the freshly
    /// minted token collided with an existing one, which the unique key
    /// refuses. No retry is performed here.
    Storage,
}

/// Whether some record in `records` is keyed by the token `t`.
pub open spec fn contains_token(records: Seq<DeviceRecordView>, t: Seq<char>) -> bool {
    exists|i: int| 0 <= i < records.len() && (#[trigger] records[i]).id == t
}

/// How many records in `records` are keyed by the token `t`.
pub open spec fn count_token(records: Seq<DeviceRecordView>, t: Seq<char>) -> nat
    decreases records.len(),
{
    if records.len() == 0 {
        0
    } else {
        count_token(records.drop_last(), t) + if records.last().id == t {
            1nat
        } else {
            0nat
        }
    }
}

/// A sequence of records without the token `t` holds zero records keyed by
/// it.
proof fn lemma_count_token_zero(records: Seq<DeviceRecordView>, t: Seq<char>)
    requires
        !contains_token(records, t),
    ensures
        count_token(records, t) == 0,
    decreases records.len(),
{
    if records.len() > 0 {
        assert forall|i: int|
            0 <= i < records.drop_last().len() implies (#[trigger] records.drop_last()[i]).id
            != t by {
            assert(records.drop_last()[i] == records[i]);
        }
        lemma_count_token_zero(records.drop_last(), t);
        assert(records.last().id != t);
    }
}

/// A token always resolves to at most one identity record in any registry
/// whose tokens are pairwise distinct.
pub proof fn lemma_token_resolves_to_at_most_one(records: Seq<DeviceRecordView>, t: Seq<char>)
    requires
        forall|i: int, j: int|
            0 <= i < j < records.len() ==> (#[trigger] records[i]).id != (#[trigger] records[j]).id,
    ensures
        count_token(records, t) <= 1,
    decreases records.len(),
{
    if records.len() > 0 {
        if records.last().id == t {
            assert forall|i: int|
                0 <= i < records.drop_last().len() implies (#[trigger] records.drop_last()[i]).id
                != t by {
                assert(records.drop_last()[i] == records[i]);
                assert(records[i].id != records[records.len() - 1].id);
            }
            lemma_count_token_zero(records.drop_last(), t);
        } else {
            assert forall|i: int, j: int|
                0 <= i < j < records.drop_last().len() implies (#[trigger] records.drop_last()[i]).id
                != (#[trigger] records.drop_last()[j]).id by {
                assert(records.drop_last()[i] == records[i]);
                assert(records.drop_last()[j] == records[j]);
            }
            lemma_token_resolves_to_at_most_one(records.drop_last(), t);
        }
    }
}

/// What resolving does to the identity records: a presented token that is
/// known resolves to itself and changes nothing; otherwise the fresh token
/// is persisted as a new record, unless it collides with an existing key.
pub open spec fn resolve_model(
    records: Seq<DeviceRecordView>,
    token: Option<Seq<char>>,
    fresh: Seq<char>,
    user_agent: Seq<char>,
) -> (Seq<DeviceRecordView>, Result<(Seq<char>, bool), IdentityError>) {
    if token matches Some(t) && contains_token(records, t) {
        (records, Ok((token->Some_0, false)))
    } else if contains_token(records, fresh) {
        (records, Err(IdentityError::Storage))
    } else {
        (
            records.push(DeviceRecordView { id: fresh, user_agent }),
            Ok((fresh, true)),
        )
    }
}

/// The registry of device identities, keyed by token.
#[derive(Debug)]
pub struct IdentityRegistry {
    records: Vec<DeviceRecord>,
}

impl View for IdentityRegistry {
    type V = Seq<DeviceRecordView>;

    closed spec fn view(&self) -> Seq<DeviceRecordView> {
        self.records@.map_values(|r: DeviceRecord| r@)
    }
}

impl IdentityRegistry {
    /// Well-formedness: every token keys at most one record.
    pub open spec fn wf(&self) -> bool {
        forall|i: int, j: int|
            0 <= i < j < self@.len() ==> (#[trigger] self@[i]).id != (#[trigger] self@[j]).id
    }

    /// Creates an empty registry.
    pub fn new() -> (s: IdentityRegistry)
        ensures
            s.wf(),
            s@ =~= Seq::<DeviceRecordView>::empty(),
    {
        IdentityRegistry { records: Vec::new() }
    }

    /// All identity records, in creation order.
    pub fn list_all(&self) -> (r: &Vec<DeviceRecord>)
        ensures
            r@.len() == self@.len(),
            forall|i: int| 0 <= i < r@.len() ==> (#[trigger] r@[i])@ == self@[i],
    {
        &self.records
    }

    /// Index of the record keyed by `token`, if any.
    fn position_of(&self, token: &String) -> (r: Option<usize>)
        ensures
            match r {
                Some(i) => i < self@.len() && self@[i as int].id == token@,
                None => !contains_token(self@, token@),
            },
    {
        let mut i: usize = 0;
        while i < self.records.len()
            invariant
                i <= self@.len(),
                self@.len() == self.records@.len(),
                forall|j: int| 0 <= j < i ==> (#[trigger] self@[j]).id != token@,
            decreases self.records@.len() - i,
        {
            if self.records[i].id == *token {
                return Some(i);
            }
            i += 1;
        }
        None
    }

    /// Resolves a device identity against a caller-supplied fresh token.
    ///
    /// A presented token that matches an existing record resolves to that
    /// record, unchanged. Otherwise — no token, or an unknown one — the
    /// fresh token is persisted as a new record and handed back as the
    /// identity; if the fresh token collides with an existing key, the
    /// insert is refused as a storage failure and nothing is retried.
    pub fn resolve_with(
        &mut self,
        token: Option<&String>,
        fresh: String,
        user_agent: String,
    ) -> (r: Result<ResolvedIdentity, IdentityError>)
        requires
            old(self).wf(),
        ensures
            final(self).wf(),
            ({
                let t = match token {
                    Some(t) => Some(t@),
                    None => None,
                };
                let (m2, res) = resolve_model(old(self)@, t, fresh@, user_agent@);
                &&& final(self)@ == m2
                &&& match (r, res) {
                    (Ok(ri), Ok((id, created))) => ri.device_id@ == id && ri.created == created,
                    (Err(e1), Err(e2)) => e1 == e2,
                    _ => false,
                }
            }),
    {
        if let Some(t) = token {
            if self.position_of(t).is_some() {
                return Ok(ResolvedIdentity { device_id: t.clone(), created: false });
            }
        }
        if self.position_of(&fresh).is_some() {
            return Err(IdentityError::Storage);
        }
        let device_id = fresh.clone();
        let record = DeviceRecord { id: fresh, user_agent };
        let ghost rv = record@;
        self.records.push(record);
        proof {
            assert(self@ =~= old(self)@.push(rv));
        }
        Ok(ResolvedIdentity { device_id, created: true })
    }

    /// Resolves a device identity, minting the candidate token itself.
    ///
    /// A known presented token resolves to itself, with no change to the
    /// registry. In every other case the registry either gains exactly the
    /// one record holding the returned token, or — if the minted token
    /// collided with an existing key — refuses the insert as a storage
    /// failure and stays unchanged.
    pub fn resolve(&mut self, token: Option<&String>, user_agent: String) -> (r: Result<
        ResolvedIdentity,
        IdentityError,
    >)
        requires
            old(self).wf(),
        ensures
            final(self).wf(),
            (match token {
                Some(t) => contains_token(old(self)@, t@),
                None => false,
            }) ==> final(self)@ == old(self)@ && (r matches Ok(ri) && ri.device_id@
                == token->Some_0@ && ri.created == false),
            !(match token {
                Some(t) => contains_token(old(self)@, t@),
                None => false,
            }) ==> match r {
                Ok(ri) => ri.created == true && ri.device_id@.len() == 36 && !contains_token(
                    old(self)@,
                    ri.device_id@,
                ) && final(self)@ =~= old(self)@.push(
                    DeviceRecordView { id: ri.device_id@, user_agent: user_agent@ },
                ),
                Err(e) => final(self)@ == old(self)@ && e == IdentityError::Storage,
            },
    {
        let fresh = mint_token();
        self.resolve_with(token, fresh, user_agent)
    }
}

/// Relies on `uuid::Uuid::new_v4` and its `Display` form: a freshly drawn
/// random version-4 UUID, rendered hyphenated as 36 characters. Nothing
/// more is assumed of the value — it is random.
#[verifier::external_body]
fn mint_token() -> (r: String)
    ensures
        r@.len() == 36,
{
    uuid::Uuid::new_v4().to_string()
}

/// Identity stability: resolving twice with a token that is already keyed
/// returns the same device identity both times and never touches the
/// records.
pub proof fn lemma_resolve_existing_stable(
    records: Seq<DeviceRecordView>,
    t: Seq<char>,
    fresh1: Seq<char>,
    fresh2: Seq<char>,
    ua1: Seq<char>,
    ua2: Seq<char>,
)
    requires
        contains_token(records, t),
    ensures
        ({
            let (m1, r1) = resolve_model(records, Some(t), fresh1, ua1);
            let (m2, r2) = resolve_model(m1, Some(t), fresh2, ua2);
            &&& m1 == records
            &&& m2 == records
            &&& r1 == Ok::<(Seq<char>, bool), IdentityError>((t, false))
            &&& r2 == Ok::<(Seq<char>, bool), IdentityError>((t, false))
        }),
{
}

/// Resolving with no token, or with an unknown one, creates exactly one new
/// identity record — the one keyed by the fresh token — and returns it.
pub proof fn lemma_resolve_creates_one(
    records: Seq<DeviceRecordView>,
    token: Option<Seq<char>>,
    fresh: Seq<char>,
    ua: Seq<char>,
)
    requires
        match token {
            Some(t) => !contains_token(records, t),
            None => true,
        },
        !contains_token(records, fresh),
    ensures
        ({
            let (m2, r) = resolve_model(records, token, fresh, ua);
            &&& m2 == records.push(DeviceRecordView { id: fresh, user_agent: ua })
            &&& m2.len() == records.len() + 1
            &&& r == Ok::<(Seq<char>, bool), IdentityError>((fresh, true))
        }),
{
}

} // verus!
