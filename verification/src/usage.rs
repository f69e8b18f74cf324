//! Usage telemetry and access-key bindings.
//!
//! One row per tenant, replaced wholesale on every telemetry report.
//! The row also carries the tenant's bound access key, so this store is
//! where the trust-on-first-use (TOFU) authorization lives: the first
//! caller to present a key for a tenant binds it; afterwards only that
//! key is accepted.

use vstd::prelude::*;
use crate::error::ServiceError;
use crate::strutil::{str_eq, eq_ignore_case, lower_seq};

verus! {

/// The usage/session row of one tenant (latest-wins snapshot).
pub struct Usage {
    pub uuid: String,
    pub tst: i64,
    pub twitch_id: String,
    pub twitch_name: String,
    pub vs: Option<String>,
    pub playertype: Option<String>,
    pub access_key: Option<String>,
}

/// One telemetry report as a client sends it.
pub struct Telemetry {
    pub uuid: String,
    pub key: String,
    pub tst: i64,
    pub twitch_id: String,
    pub twitch_name: String,
    pub vs: Option<String>,
    pub playertype: String,
}

/// The view of an optional string: its character sequence, if present.
pub open spec fn opt_view(o: Option<String>) -> Option<Seq<char>> {
    match o {
        Some(s) => Some(s@),
        None => None,
    }
}

/// Clones an optional string, preserving the value exactly.
pub fn clone_opt_string(o: &Option<String>) -> (r: Option<String>)
    ensures
        r == *o,
{
    match o {
        Some(s) => Some(s.clone()),
        None => None,
    }
}

impl Clone for Usage {
    fn clone(&self) -> (r: Self)
        ensures
            r == *self,
    {
        Usage {
            uuid: self.uuid.clone(),
            tst: self.tst,
            twitch_id: self.twitch_id.clone(),
            twitch_name: self.twitch_name.clone(),
            vs: clone_opt_string(&self.vs),
            playertype: clone_opt_string(&self.playertype),
            access_key: clone_opt_string(&self.access_key),
        }
    }
}

/// Does row `r` belong to tenant `id`?
pub open spec fn row_matches(r: Usage, id: Seq<char>) -> bool {
    r.uuid@ == id
}

/// Index of the first row of tenant `id`, if any.
pub open spec fn idx_for(rows: Seq<Usage>, id: Seq<char>) -> Option<int>
    decreases rows.len(),
{
    if rows.len() == 0 {
        None
    } else {
        match idx_for(rows.drop_last(), id) {
            Some(i) => Some(i),
            None => if row_matches(rows.last(), id) {
                Some(rows.len() - 1)
            } else {
                None
            },
        }
    }
}

/// The first row of tenant `id`, if any.
pub open spec fn row_for(rows: Seq<Usage>, id: Seq<char>) -> Option<Usage> {
    match idx_for(rows, id) {
        Some(i) => Some(rows[i]),
        None => None,
    }
}

/// The access key bound to tenant `id`, if any.
pub open spec fn binding_of(rows: Seq<Usage>, id: Seq<char>) -> Option<Seq<char>> {
    match row_for(rows, id) {
        Some(r) => opt_view(r.access_key),
        None => None,
    }
}

/// The display name last reported for tenant `id`, if any.
pub open spec fn name_of(rows: Seq<Usage>, id: Seq<char>) -> Option<Seq<char>> {
    match row_for(rows, id) {
        Some(r) => Some(r.twitch_name@),
        None => None,
    }
}

/// The usage row whose display name equals `name` up to ASCII case,
/// preferring the most recent session; between equally recent sessions,
/// the earlier row wins.
pub open spec fn latest_session(rows: Seq<Usage>, name: Seq<char>) -> Option<Usage>
    decreases rows.len(),
{
    if rows.len() == 0 {
        None
    } else {
        let rest = latest_session(rows.drop_last(), name);
        let e = rows.last();
        if lower_seq(e.twitch_name@) == lower_seq(name) {
            match rest {
                None => Some(e),
                Some(b) => if e.tst > b.tst {
                    Some(e)
                } else {
                    Some(b)
                },
            }
        } else {
            rest
        }
    }
}

/// The tenant id behind display name `name`, per `latest_session`.
pub open spec fn session_uuid_of(rows: Seq<Usage>, name: Seq<char>) -> Option<Seq<char>> {
    match latest_session(rows, name) {
        Some(e) => Some(e.uuid@),
        None => None,
    }
}

/// At most one row per tenant.
pub open spec fn rows_unique(rows: Seq<Usage>) -> bool {
    forall|i: int, j: int|
        0 <= i < j < rows.len() ==> rows[i].uuid@ != rows[j].uuid@
}

/// A row freshly created only to hold a tenant's key binding:
/// every usage field is still at its blank default.
pub open spec fn new_key_row(r: Usage, id: Seq<char>, key: Seq<char>) -> bool {
    &&& r.uuid@ == id
    &&& r.tst == 0
    &&& r.twitch_id@ == Seq::<char>::empty()
    &&& r.twitch_name@ == Seq::<char>::empty()
    &&& r.vs is None
    &&& r.playertype is None
    &&& r.access_key matches Some(k) && k@ == key
}

/// The usage row a telemetry report replaces a tenant's row with.
pub open spec fn row_of_telemetry(t: Telemetry) -> Usage {
    Usage {
        uuid: t.uuid,
        tst: t.tst,
        twitch_id: t.twitch_id,
        twitch_name: t.twitch_name,
        vs: t.vs,
        playertype: Some(t.playertype),
        access_key: Some(t.key),
    }
}

/// Does the presented key pass authorization against binding `b`?
/// With no binding, any key passes (and becomes bound).
pub open spec fn tofu_ok(b: Option<Seq<char>>, k: Seq<char>) -> bool {
    match b {
        None => true,
        Some(b0) => b0 == k,
    }
}

/// The binding after an authorization attempt with key `k`:
/// a first key is bound, an existing binding is never changed.
pub open spec fn tofu_post(b: Option<Seq<char>>, k: Seq<char>) -> Option<Seq<char>> {
    match b {
        None => Some(k),
        Some(b0) => Some(b0),
    }
}

/// Everything an authorization attempt with key `key` for tenant `id`
/// does to the usage rows: the binding moves from `b` to
/// `tofu_post(b, key)`, no other tenant's row moves at all, and the
/// tenant's own row keeps every usage field — a binding only ever adds
/// a key to the existing row, or appends a blank row carrying the key.
pub open spec fn authorize_effect(
    rows0: Seq<Usage>,
    rows1: Seq<Usage>,
    id: Seq<char>,
    key: Seq<char>,
) -> bool {
    &&& binding_of(rows1, id) == tofu_post(binding_of(rows0, id), key)
    &&& forall|t: Seq<char>| t != id ==> #[trigger] row_for(rows1, t) == row_for(rows0, t)
    &&& (binding_of(rows0, id) is Some ==> rows1 == rows0)
    &&& (binding_of(rows0, id) is None ==> match idx_for(rows0, id) {
        Some(i) => {
            &&& rows1.len() == rows0.len()
            &&& (forall|j: int| 0 <= j < rows0.len() && j != i ==> rows1[j] == rows0[j])
            &&& rows1[i] == (Usage { access_key: rows1[i].access_key, ..rows0[i] })
            &&& opt_view(rows1[i].access_key) == Some(key)
        },
        None => {
            &&& rows1.len() == rows0.len() + 1
            &&& rows1.drop_last() == rows0
            &&& new_key_row(rows1.last(), id, key)
        },
    })
}

/// Trust-on-first-use law.  Take a tenant with no prior binding and a
/// first authorization with key `k` (its effect on the rows is
/// `authorize_effect`): that call is accepted and binds `k`.  From
/// then on `k` keeps being accepted, while any different key `k2` is
/// rejected, and an attempt with `k2` moves neither the binding nor a
/// single row of the store.
pub proof fn lemma_tofu(
    rows0: Seq<Usage>,
    rows1: Seq<Usage>,
    rows2: Seq<Usage>,
    id: Seq<char>,
    k: Seq<char>,
    k2: Seq<char>,
)
    requires
        binding_of(rows0, id) is None,
        authorize_effect(rows0, rows1, id, k),
        k2 != k,
        authorize_effect(rows1, rows2, id, k2),
    ensures
        tofu_ok(binding_of(rows0, id), k),
        binding_of(rows1, id) == Some(k),
        tofu_ok(binding_of(rows1, id), k),
        !tofu_ok(binding_of(rows1, id), k2),
        rows2 == rows1,
        binding_of(rows2, id) == Some(k),
{
}

/// Basic facts about `idx_for`: a found index is in range and matches,
/// and a miss means no row matches.
pub proof fn lemma_idx_for_props(rows: Seq<Usage>, id: Seq<char>)
    ensures
        match idx_for(rows, id) {
            Some(i) => 0 <= i < rows.len() && row_matches(rows[i], id),
            None => forall|j: int| 0 <= j < rows.len() ==> !row_matches(rows[j], id),
        },
    decreases rows.len(),
{
    if rows.len() > 0 {
        lemma_idx_for_props(rows.drop_last(), id);
        assert(forall|j: int|
            0 <= j < rows.len() - 1 ==> rows[j] == rows.drop_last()[j]);
    }
}

/// Replacing a row with one for the same tenant moves no tenant's index.
pub proof fn lemma_idx_for_update(rows: Seq<Usage>, i: int, r2: Usage)
    requires
        0 <= i < rows.len(),
        r2.uuid@ == rows[i].uuid@,
    ensures
        forall|id: Seq<char>| #[trigger] idx_for(rows.update(i, r2), id) == idx_for(rows, id),
    decreases rows.len(),
{
    let u = rows.update(i, r2);
    if i == rows.len() - 1 {
        assert(u.drop_last() =~= rows.drop_last());
        assert(u.last() == r2);
        assert forall|id: Seq<char>| #[trigger] idx_for(u, id) == idx_for(rows, id) by {
            assert(row_matches(u.last(), id) == row_matches(rows.last(), id));
        }
    } else {
        lemma_idx_for_update(rows.drop_last(), i, r2);
        assert(u.drop_last() =~= rows.drop_last().update(i, r2));
        assert(u.last() == rows.last());
        assert forall|id: Seq<char>| #[trigger] idx_for(u, id) == idx_for(rows, id) by {
            assert(idx_for(u.drop_last(), id) == idx_for(rows.drop_last(), id));
        }
    }
}

/// Finds the index of tenant `id`'s row in `rows`, if it has one.
fn find_row_index(rows: &Vec<Usage>, id: &str) -> (r: Option<usize>)
    ensures
        match r {
            Some(i) => i < rows@.len() && idx_for(rows@, id@) == Some(i as int),
            None => idx_for(rows@, id@) is None,
        },
{
    let n = rows.len();
    let mut found: Option<usize> = None;
    let mut i: usize = 0;
    while i < n
        invariant
            n == rows@.len(),
            i <= n,
            match found {
                Some(k) => k < i && idx_for(rows@.take(i as int), id@) == Some(k as int),
                None => idx_for(rows@.take(i as int), id@) is None,
            },
        decreases n - i,
    {
        proof {
            assert(rows@.take(i as int + 1).drop_last() =~= rows@.take(i as int));
            assert(rows@.take(i as int + 1).last() == rows@[i as int]);
        }
        if found.is_none() {
            if str_eq(rows[i].uuid.as_str(), id) {
                found = Some(i);
            }
        }
        i = i + 1;
    }
    proof {
        assert(rows@.take(n as int) =~= rows@);
    }
    found
}

/// The store of usage rows: at most one per tenant.
pub struct UsageStore {
    rows: Vec<Usage>,
}

impl View for UsageStore {
    type V = Seq<Usage>;

    closed spec fn view(&self) -> Seq<Usage> {
        self.rows@
    }
}

impl UsageStore {
    /// At most one row per tenant.
    pub open spec fn wf(&self) -> bool {
        rows_unique(self@)
    }

    /// An empty store.
    pub fn new() -> (s: Self)
        ensures
            s@ == Seq::<Usage>::empty(),
            s.wf(),
    {
        let s = UsageStore { rows: Vec::new() };
        proof {
            assert(s@ =~= Seq::<Usage>::empty());
        }
        s
    }
}

/// Looks up the tenant id behind a display name: the row whose name
/// matches up to ASCII case with the most recent session wins.
pub fn find_session_uuid(name: &str, store: &UsageStore) -> (r: Option<String>)
    ensures
        opt_view(r) == session_uuid_of(store@, name@),
{
    let rows = &store.rows;
    let n = rows.len();
    let mut best: Option<usize> = None;
    let mut i: usize = 0;
    while i < n
        invariant
            n == rows@.len(),
            i <= n,
            match best {
                Some(k) => k < i && latest_session(rows@.take(i as int), name@) == Some(
                    rows@[k as int],
                ),
                None => latest_session(rows@.take(i as int), name@) is None,
            },
        decreases n - i,
    {
        proof {
            assert(rows@.take(i as int + 1).drop_last() =~= rows@.take(i as int));
            assert(rows@.take(i as int + 1).last() == rows@[i as int]);
        }
        if eq_ignore_case(rows[i].twitch_name.as_str(), name) {
            match best {
                None => {
                    best = Some(i);
                },
                Some(k) => {
                    if rows[i].tst > rows[k].tst {
                        best = Some(i);
                    }
                },
            }
        }
        i = i + 1;
    }
    proof {
        assert(rows@.take(n as int) =~= rows@);
    }
    match best {
        Some(k) => Some(rows[k].uuid.clone()),
        None => None,
    }
}

/// Trust-on-first-use authorization for one mutating call: fetches the
/// key bound to `uuid`; with no binding, binds `api_key` and succeeds;
/// with a matching binding, succeeds; with a different binding, fails
/// `Unauthorized` and changes nothing.
pub fn verify_access_key(uuid: &str, api_key: &str, store: &mut UsageStore) -> (r: Result<
    (),
    ServiceError,
>)
    requires
        old(store).wf(),
    ensures
        final(store).wf(),
        r is Ok <==> tofu_ok(binding_of(old(store)@, uuid@), api_key@),
        r matches Err(e) ==> e == ServiceError::Unauthorized,
        authorize_effect(old(store)@, final(store)@, uuid@, api_key@),
{
    let existing = match Usage::get_access_key(uuid.to_owned(), store) {
        Ok(v) => v,
        Err(e) => {
            return Err(e);
        },
    };
    match existing {
        Some(key) => {
            if !str_eq(key.as_str(), api_key) {
                return Err(ServiceError::Unauthorized);
            }
            Ok(())
        },
        None => {
            match Usage::set_access_key(uuid.to_owned(), api_key.to_owned(), store) {
                Ok(_) => {
                    proof {
                        lemma_idx_for_props(old(store)@, uuid@);
                    }
                    Ok(())
                },
                Err(e) => Err(e),
            }
        },
    }
}

impl Usage {
    /// The access key bound to tenant `id`, if any; a tenant without a
    /// row (or without a key on its row) yields `None`, not an error.
    pub fn get_access_key(id: String, store: &UsageStore) -> (r: Result<
        Option<String>,
        ServiceError,
    >)
        ensures
            r is Ok,
            opt_view(r->Ok_0) == binding_of(store@, id@),
    {
        match find_row_index(&store.rows, id.as_str()) {
            Some(i) => Ok(clone_opt_string(&store.rows[i].access_key)),
            None => Ok(None),
        }
    }

    /// Binds `access_key` to tenant `id`: sets the key on the tenant's
    /// row, creating a blank row first when the tenant has none.  Every
    /// other tenant's row is untouched.
    pub fn set_access_key(id: String, access_key: String, store: &mut UsageStore) -> (r: Result<
        (),
        ServiceError,
    >)
        requires
            old(store).wf(),
        ensures
            r is Ok,
            final(store).wf(),
            match idx_for(old(store)@, id@) {
                Some(i) => final(store)@ == old(store)@.update(
                    i,
                    Usage { access_key: Some(access_key), ..old(store)@[i] },
                ),
                None => {
                    &&& final(store)@.len() == old(store)@.len() + 1
                    &&& final(store)@.drop_last() == old(store)@
                    &&& new_key_row(final(store)@.last(), id@, access_key@)
                },
            },
            binding_of(final(store)@, id@) == Some(access_key@),
            forall|t: Seq<char>|
                t != id@ ==> #[trigger] row_for(final(store)@, t) == row_for(old(store)@, t),
    {
        let ghost rows0 = store@;
        match find_row_index(&store.rows, id.as_str()) {
            Some(i) => {
                let nr = {
                    let rr = &store.rows[i];
                    Usage {
                        uuid: rr.uuid.clone(),
                        tst: rr.tst,
                        twitch_id: rr.twitch_id.clone(),
                        twitch_name: rr.twitch_name.clone(),
                        vs: clone_opt_string(&rr.vs),
                        playertype: clone_opt_string(&rr.playertype),
                        access_key: Some(access_key),
                    }
                };
                proof {
                    lemma_idx_for_props(rows0, id@);
                    lemma_idx_for_update(rows0, i as int, nr);
                }
                store.rows[i] = nr;
                proof {
                    assert forall|t: Seq<char>| t != id@ implies #[trigger] row_for(
                        store@,
                        t,
                    ) == row_for(rows0, t) by {
                        lemma_idx_for_props(rows0, t);
                    }
                }
                Ok(())
            },
            None => {
                proof {
                    lemma_idx_for_props(rows0, id@);
                }
                let nr = Usage {
                    uuid: id,
                    tst: 0,
                    twitch_id: String::new(),
                    twitch_name: String::new(),
                    vs: None,
                    playertype: None,
                    access_key: Some(access_key),
                };
                store.rows.push(nr);
                proof {
                    assert(store@.drop_last() =~= rows0);
                    assert forall|t: Seq<char>| t != id@ implies #[trigger] row_for(
                        store@,
                        t,
                    ) == row_for(rows0, t) by {
                        assert(!row_matches(store@.last(), t));
                        lemma_idx_for_props(rows0, t);
                    }
                }
                Ok(())
            },
        }
    }

    /// Replaces tenant `telemetry.uuid`'s usage row wholesale with the
    /// reported snapshot (latest wins; the row is created if absent).
    /// An empty tenant id is rejected before any state change.
    pub fn set_telemetry(telemetry: Telemetry, store: &mut UsageStore) -> (r: Result<
        (),
        ServiceError,
    >)
        requires
            old(store).wf(),
        ensures
            final(store).wf(),
            r is Err <==> telemetry.uuid@.len() == 0,
            r matches Err(e) ==> e == ServiceError::Validation,
            r is Err ==> final(store)@ == old(store)@,
            r is Ok ==> match idx_for(old(store)@, telemetry.uuid@) {
                Some(i) => final(store)@ == old(store)@.update(i, row_of_telemetry(telemetry)),
                None => final(store)@ == old(store)@.push(row_of_telemetry(telemetry)),
            },
    {
        if telemetry.uuid.as_str().is_empty() {
            return Err(ServiceError::Validation);
        }
        let ghost rows0 = store@;
        let idx = find_row_index(&store.rows, telemetry.uuid.as_str());
        let nr = Usage {
            uuid: telemetry.uuid,
            tst: telemetry.tst,
            twitch_id: telemetry.twitch_id,
            twitch_name: telemetry.twitch_name,
            vs: telemetry.vs,
            playertype: Some(telemetry.playertype),
            access_key: Some(telemetry.key),
        };
        match idx {
            Some(i) => {
                proof {
                    lemma_idx_for_props(rows0, nr.uuid@);
                    lemma_idx_for_update(rows0, i as int, nr);
                }
                store.rows[i] = nr;
            },
            None => {
                proof {
                    lemma_idx_for_props(rows0, nr.uuid@);
                }
                store.rows.push(nr);
                proof {
                    assert(store@.drop_last() =~= rows0);
                }
            },
        }
        Ok(())
    }

    /// The display name last reported for tenant `id`, if any; a tenant
    /// without a row yields `None`, not an error.
    pub fn get_twitch_name(id: String, store: &UsageStore) -> (r: Result<
        Option<String>,
        ServiceError,
    >)
        ensures
            r is Ok,
            opt_view(r->Ok_0) == name_of(store@, id@),
    {
        match find_row_index(&store.rows, id.as_str()) {
            Some(i) => Ok(Some(store.rows[i].twitch_name.clone())),
            None => Ok(None),
        }
    }
}

} // verus!
