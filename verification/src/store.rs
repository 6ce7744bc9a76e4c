//! The node configuration store: owns the set of persisted profiles and
//! the single-active-profile invariant, and exposes the create / read /
//! list / activate / delete protocol with transactional contracts.
//!
//! The store state is the sequence of profiles ordered by creation time,
//! most recent first.  Each mutating operation is a single atomic step
//! from one well-formed state to the next: a reader observes either the
//! state before the step or the state after it, never anything between.

use vstd::prelude::*;
use vstd::string::StringExecFns;

use crate::domain::{NewNodeConfig, NodeConfig, NodeConfigView};

verus! {

/// Errors surfaced by the store.
#[derive(Debug)]
pub enum DbError {
    NotFound,
    DatabaseError(String),
    InvalidInput(String),
}

impl DbError {
    pub open spec fn spec_message(self) -> Seq<char> {
        match self {
            DbError::NotFound => "Record not found"@,
            DbError::DatabaseError(msg) => "Database error: "@ + msg@,
            DbError::InvalidInput(msg) => "Invalid input: "@ + msg@,
        }
    }

    /// Human-readable description of the error.
    pub fn message(&self) -> (r: String)
        ensures
            r@ == self.spec_message(),
    {
        match self {
            DbError::NotFound => "Record not found".to_owned(),
            DbError::DatabaseError(msg) => "Database error: ".to_owned().concat(msg.as_str()),
            DbError::InvalidInput(msg) => "Invalid input: ".to_owned().concat(msg.as_str()),
        }
    }
}

/// True when some profile in `s` carries the identifier `id`.
pub open spec fn spec_has_id(s: Seq<NodeConfigView>, id: Seq<char>) -> bool {
    exists|i: int| 0 <= i < s.len() && #[trigger] s[i].id == id
}

/// Index of the first profile carrying `id`, or `-1` when there is none.
pub open spec fn spec_find_id(s: Seq<NodeConfigView>, id: Seq<char>) -> int
    decreases s.len(),
{
    if s.len() == 0 {
        -1
    } else if s[0].id == id {
        0
    } else if spec_find_id(s.drop_first(), id) == -1 {
        -1
    } else {
        spec_find_id(s.drop_first(), id) + 1
    }
}

/// Number of profiles in `s` whose active flag is set.
pub open spec fn spec_active_count(s: Seq<NodeConfigView>) -> nat
    decreases s.len(),
{
    if s.len() == 0 {
        0
    } else {
        (if s[0].is_active {
            1nat
        } else {
            0nat
        }) + spec_active_count(s.drop_first())
    }
}

/// No two profiles share an identifier.
pub open spec fn spec_ids_distinct(s: Seq<NodeConfigView>) -> bool {
    forall|i: int, j: int| 0 <= i < j < s.len() ==> s[i].id != s[j].id
}

/// Well-formedness of a store state: identifiers are distinct and at
/// most one profile is active.
pub open spec fn spec_store_wf(s: Seq<NodeConfigView>) -> bool {
    spec_ids_distinct(s) && spec_active_count(s) <= 1
}

/// The invariant the protocol maintains: a non-empty store has exactly
/// one active profile.
pub open spec fn spec_single_active(s: Seq<NodeConfigView>) -> bool {
    s.len() > 0 ==> spec_active_count(s) == 1
}

/// True when the profile carrying `id` exists and is the active one.
pub open spec fn spec_active_has_id(s: Seq<NodeConfigView>, id: Seq<char>) -> bool {
    exists|i: int| 0 <= i < s.len() && #[trigger] s[i].id == id && s[i].is_active
}

/// The profile `c` with its active flag replaced by `b`.
pub open spec fn spec_with_active(c: NodeConfigView, b: bool) -> NodeConfigView {
    NodeConfigView {
        id: c.id,
        name: c.name,
        rpc_url: c.rpc_url,
        rpc_user: c.rpc_user,
        rpc_password: c.rpc_password,
        network: c.network,
        is_active: b,
    }
}

/// State after activating `id`: the target becomes the only active
/// profile, every other profile becomes inactive.
pub open spec fn spec_activate(s: Seq<NodeConfigView>, id: Seq<char>) -> Seq<NodeConfigView> {
    Seq::new(s.len(), |i: int| spec_with_active(s[i], s[i].id == id))
}

/// State after deleting the profile carrying `id`.
pub open spec fn spec_delete(s: Seq<NodeConfigView>, id: Seq<char>) -> Seq<NodeConfigView> {
    s.remove(spec_find_id(s, id))
}

/// `spec_find_id` finds exactly the first occurrence of `id`, and fails
/// exactly when no profile carries `id`.
pub proof fn lemma_find_id(s: Seq<NodeConfigView>, id: Seq<char>)
    ensures
        spec_find_id(s, id) == -1 <==> !spec_has_id(s, id),
        spec_has_id(s, id) ==> 0 <= spec_find_id(s, id) < s.len()
            && s[spec_find_id(s, id)].id == id
            && forall|j: int| 0 <= j < spec_find_id(s, id) ==> s[j].id != id,
    decreases s.len(),
{
    if s.len() == 0 {
        assert(!spec_has_id(s, id));
    } else {
        let t = s.drop_first();
        lemma_find_id(t, id);
        assert(forall|i: int| 0 <= i < t.len() ==> t[i] == s[i + 1]);
        if s[0].id == id {
            assert(spec_find_id(s, id) == 0);
            assert(spec_has_id(s, id));
        } else {
            if spec_has_id(s, id) {
                let w = choose|i: int| 0 <= i < s.len() && #[trigger] s[i].id == id;
                assert(t[w - 1].id == id);
                assert(spec_has_id(t, id));
            }
            if spec_has_id(t, id) {
                let w = choose|i: int| 0 <= i < t.len() && #[trigger] t[i].id == id;
                assert(s[w + 1].id == id);
                assert(spec_has_id(s, id));
                let f = spec_find_id(t, id);
                assert(0 <= f < t.len());
                assert(spec_find_id(s, id) == f + 1);
                assert(s[f + 1].id == id);
                assert forall|j: int| 0 <= j < f + 1 implies s[j].id != id by {
                    if j > 0 {
                        assert(s[j] == t[j - 1]);
                    }
                }
            } else {
                assert(spec_find_id(s, id) == -1);
                assert(!spec_has_id(s, id));
            }
        }
    }
}

/// Prepending a profile adds its own flag to the active count.
pub proof fn lemma_active_count_prepend(s: Seq<NodeConfigView>, p: NodeConfigView)
    ensures
        spec_active_count(s.insert(0, p)) == spec_active_count(s) + (if p.is_active {
            1nat
        } else {
            0nat
        }),
{
    let t = s.insert(0, p);
    assert(t[0] == p);
    assert(t.drop_first() =~= s);
}

/// Activating an identifier that no profile carries leaves every profile
/// inactive.
pub proof fn lemma_activate_count_zero(s: Seq<NodeConfigView>, id: Seq<char>)
    requires
        forall|i: int| 0 <= i < s.len() ==> s[i].id != id,
    ensures
        spec_active_count(spec_activate(s, id)) == 0,
    decreases s.len(),
{
    let t = spec_activate(s, id);
    if s.len() == 0 {
        assert(t.len() == 0);
    } else {
        assert(forall|i: int| 0 <= i < s.drop_first().len() ==> s.drop_first()[i] == s[i + 1]);
        lemma_activate_count_zero(s.drop_first(), id);
        assert(t.drop_first() =~= spec_activate(s.drop_first(), id));
        assert(!t[0].is_active);
    }
}

/// Activating an existing identifier in a store with distinct
/// identifiers leaves exactly one profile active.
pub proof fn lemma_activate_count_one(s: Seq<NodeConfigView>, id: Seq<char>)
    requires
        spec_ids_distinct(s),
        spec_has_id(s, id),
    ensures
        spec_active_count(spec_activate(s, id)) == 1,
    decreases s.len(),
{
    let t = spec_activate(s, id);
    let u = s.drop_first();
    assert(forall|i: int| 0 <= i < u.len() ==> u[i] == s[i + 1]);
    assert(t.drop_first() =~= spec_activate(u, id));
    if s[0].id == id {
        assert(t[0].is_active);
        assert(forall|i: int| 0 <= i < u.len() ==> u[i].id != id);
        lemma_activate_count_zero(u, id);
    } else {
        assert(!t[0].is_active);
        let w = choose|i: int| 0 <= i < s.len() && #[trigger] s[i].id == id;
        assert(u[w - 1].id == id);
        assert(spec_has_id(u, id));
        assert(spec_ids_distinct(u));
        lemma_activate_count_one(u, id);
    }
}

/// Removing a profile subtracts its own flag from the active count.
pub proof fn lemma_active_count_remove(s: Seq<NodeConfigView>, i: int)
    requires
        0 <= i < s.len(),
    ensures
        spec_active_count(s.remove(i)) + (if s[i].is_active {
            1nat
        } else {
            0nat
        }) == spec_active_count(s),
    decreases s.len(),
{
    let t = s.remove(i);
    s.remove_ensures(i);
    if i == 0 {
        assert(t =~= s.drop_first());
    } else {
        assert(t[0] == s[0]);
        assert(t.drop_first() =~= s.drop_first().remove(i - 1));
        assert(forall|j: int| 0 <= j < s.drop_first().len() ==> s.drop_first()[j] == s[j + 1]);
        lemma_active_count_remove(s.drop_first(), i - 1);
    }
}

/// The active count is zero exactly when no profile is active.
pub proof fn lemma_active_count_zero_iff(s: Seq<NodeConfigView>)
    ensures
        spec_active_count(s) == 0 <==> (forall|i: int| 0 <= i < s.len() ==> !s[i].is_active),
    decreases s.len(),
{
    if s.len() == 0 {
    } else {
        let u = s.drop_first();
        assert(forall|i: int| 0 <= i < u.len() ==> u[i] == s[i + 1]);
        lemma_active_count_zero_iff(u);
        if forall|i: int| 0 <= i < s.len() ==> !s[i].is_active {
            assert(forall|i: int| 0 <= i < u.len() ==> !u[i].is_active);
        }
        if spec_active_count(s) == 0 {
            assert(!s[0].is_active);
            assert(forall|i: int| 0 <= i < s.len() ==> !s[i].is_active) by {
                assert(forall|i: int| 1 <= i < s.len() ==> s[i] == u[i - 1]);
            }
        }
    }
}

/// An active profile witnesses an active count of at least one.
pub proof fn lemma_active_witness(s: Seq<NodeConfigView>, i: int)
    requires
        0 <= i < s.len(),
        s[i].is_active,
    ensures
        spec_active_count(s) >= 1,
{
    lemma_active_count_remove(s, i);
}

/// With at most one active profile, two active positions coincide.
pub proof fn lemma_at_most_one_active(s: Seq<NodeConfigView>, i: int, j: int)
    requires
        spec_active_count(s) <= 1,
        0 <= i < s.len(),
        0 <= j < s.len(),
        s[i].is_active,
        s[j].is_active,
    ensures
        i == j,
{
    if i != j {
        let lo = if i < j {
            i
        } else {
            j
        };
        let hi = if i < j {
            j
        } else {
            i
        };
        lemma_active_count_remove(s, hi);
        s.remove_ensures(hi);
        assert(s.remove(hi)[lo].is_active);
        lemma_active_witness(s.remove(hi), lo);
    }
}

/// Reads are deterministic: in a well-formed store, a profile is pinned
/// down by its identifier, and the active profile is pinned down by its
/// flag.  Repeated `get`, `get_active` and `list` calls on an unchanged
/// store therefore describe identical results.
pub proof fn lemma_reads_deterministic(
    s: Seq<NodeConfigView>,
    c1: NodeConfigView,
    c2: NodeConfigView,
)
    requires
        spec_store_wf(s),
        s.contains(c1),
        s.contains(c2),
        c1.id == c2.id || (c1.is_active && c2.is_active),
    ensures
        c1 == c2,
{
    let i = choose|i: int| 0 <= i < s.len() && s[i] == c1;
    let j = choose|j: int| 0 <= j < s.len() && s[j] == c2;
    if c1.id == c2.id {
        assert(i == j);
    } else {
        lemma_at_most_one_active(s, i, j);
    }
}

/// One logical store operation, described over the mathematical state.
/// `Create` carries the profile to insert (its active flag is assigned
/// by the operation), `Activate` and `Delete` carry the target
/// identifier.
pub enum StoreOp {
    Create(NodeConfigView),
    Activate(Seq<char>),
    Delete(Seq<char>),
}

/// The state after one operation.  An operation whose target is missing
/// (or whose fresh identifier clashes) fails and leaves the state
/// unchanged, exactly as the executable operations do.
pub open spec fn apply_op(s: Seq<NodeConfigView>, op: StoreOp) -> Seq<NodeConfigView> {
    match op {
        StoreOp::Create(p) => if spec_has_id(s, p.id) {
            s
        } else {
            s.insert(0, spec_with_active(p, s.len() == 0))
        },
        StoreOp::Activate(id) => if spec_has_id(s, id) {
            spec_activate(s, id)
        } else {
            s
        },
        StoreOp::Delete(id) => if spec_has_id(s, id) {
            spec_delete(s, id)
        } else {
            s
        },
    }
}

/// The state after a sequence of operations, applied in order.
pub open spec fn apply_ops(s: Seq<NodeConfigView>, ops: Seq<StoreOp>) -> Seq<NodeConfigView>
    decreases ops.len(),
{
    if ops.len() == 0 {
        s
    } else {
        apply_ops(apply_op(s, ops[0]), ops.drop_first())
    }
}

/// True unless the operation deletes the currently active profile (the
/// one mutation the protocol allows to leave the store with no active
/// profile).
pub open spec fn op_keeps_active(s: Seq<NodeConfigView>, op: StoreOp) -> bool {
    !(op is Delete && spec_active_has_id(s, op->Delete_0))
}

/// Every operation in the sequence, applied in order, keeps an active
/// profile around.
pub open spec fn ops_keep_active(s: Seq<NodeConfigView>, ops: Seq<StoreOp>) -> bool
    decreases ops.len(),
{
    ops.len() == 0 || (op_keeps_active(s, ops[0]) && ops_keep_active(
        apply_op(s, ops[0]),
        ops.drop_first(),
    ))
}

/// Single-active invariant, one step: a well-formed store in which every
/// non-empty state has exactly one active profile stays that way across
/// any create, activate or delete that does not delete the active
/// profile.
pub proof fn lemma_op_preserves_single_active(s: Seq<NodeConfigView>, op: StoreOp)
    requires
        spec_store_wf(s),
        spec_single_active(s),
        op_keeps_active(s, op),
    ensures
        spec_store_wf(apply_op(s, op)),
        spec_single_active(apply_op(s, op)),
{
    let t = apply_op(s, op);
    match op {
        StoreOp::Create(p) => {
            if !spec_has_id(s, p.id) {
                let q = spec_with_active(p, s.len() == 0);
                lemma_active_count_prepend(s, q);
                s.insert_ensures(0, q);
                assert(spec_ids_distinct(t)) by {
                    assert(forall|j: int| 0 <= j < s.len() ==> t[j + 1] == s[j]);
                    assert(t[0] == q);
                }
            }
        },
        StoreOp::Activate(id) => {
            if spec_has_id(s, id) {
                lemma_activate_count_one(s, id);
                assert(spec_ids_distinct(t)) by {
                    assert(forall|j: int| 0 <= j < t.len() ==> t[j].id == s[j].id);
                }
            }
        },
        StoreOp::Delete(id) => {
            if spec_has_id(s, id) {
                lemma_find_id(s, id);
                let fi = spec_find_id(s, id);
                lemma_active_count_remove(s, fi);
                s.remove_ensures(fi);
                assert(!s[fi].is_active);
                assert(spec_ids_distinct(t)) by {
                    assert(forall|j: int| 0 <= j < fi ==> t[j] == s[j]);
                    assert(forall|j: int| fi <= j < t.len() ==> t[j] == s[j + 1]);
                }
                if t.len() > 0 {
                    assert(spec_active_count(s) == 1);
                }
            }
        },
    }
}

/// Single-active invariant: starting from any well-formed store in
/// which every non-empty state has exactly one active profile — the
/// empty store included — any sequence of create, activate and delete
/// operations that never deletes the currently active profile leaves,
/// after every step, a well-formed store that again has exactly one
/// active profile whenever it is non-empty.
pub proof fn lemma_ops_preserve_single_active(s: Seq<NodeConfigView>, ops: Seq<StoreOp>)
    requires
        spec_store_wf(s),
        spec_single_active(s),
        ops_keep_active(s, ops),
    ensures
        spec_store_wf(apply_ops(s, ops)),
        spec_single_active(apply_ops(s, ops)),
    decreases ops.len(),
{
    if ops.len() > 0 {
        lemma_op_preserves_single_active(s, ops[0]);
        lemma_ops_preserve_single_active(apply_op(s, ops[0]), ops.drop_first());
    }
}

/// Views of a sequence of profiles.
pub open spec fn config_views(s: Seq<NodeConfig>) -> Seq<NodeConfigView> {
    Seq::new(s.len(), |i: int| s[i]@)
}

/// Repository abstraction for node configuration operations, so that
/// another storage backend can stand in for the store.  Every
/// implementation must provide the same protocol the contracts below
/// state over its abstract state.
pub trait NodeConfigRepository {
    /// The abstract state: profiles ordered by creation time, most
    /// recent first.
    spec fn repo_view(&self) -> Seq<NodeConfigView>;

    /// Well-formedness of the abstract state.
    open spec fn repo_wf(&self) -> bool {
        spec_store_wf(self.repo_view())
    }

    /// Create a new profile; it becomes active exactly when the
    /// repository was empty.
    fn create(&mut self, config: NewNodeConfig) -> (r: Result<NodeConfig, DbError>)
        requires
            old(self).repo_wf(),
        ensures
            final(self).repo_wf(),
            match r {
                Ok(p) => !spec_has_id(old(self).repo_view(), p.id@) && p@.name == config@.name
                    && p@.rpc_url == config@.rpc_url && p@.rpc_user == config@.rpc_user
                    && p@.rpc_password == config@.rpc_password && p@.network == config@.network
                    && p@.is_active == (old(self).repo_view().len() == 0)
                    && final(self).repo_view() == old(self).repo_view().insert(0, p@),
                Err(e) => e is DatabaseError && final(self).repo_view() == old(self).repo_view(),
            },
    ;

    /// Point lookup by identifier.
    fn get(&self, id: &str) -> (r: Result<Option<NodeConfig>, DbError>)
        ensures
            match r {
                Ok(Some(c)) => self.repo_view().contains(c@) && c@.id == id@,
                Ok(None) => !spec_has_id(self.repo_view(), id@),
                Err(_) => false,
            },
    ;

    /// The single active profile, if one exists.
    fn get_active(&self) -> (r: Result<Option<NodeConfig>, DbError>)
        ensures
            match r {
                Ok(Some(c)) => self.repo_view().contains(c@) && c@.is_active,
                Ok(None) => spec_active_count(self.repo_view()) == 0,
                Err(_) => false,
            },
    ;

    /// All profiles, ordered by creation time, most recent first.
    fn list(&self) -> (r: Result<Vec<NodeConfig>, DbError>)
        ensures
            match r {
                Ok(v) => config_views(v@) == self.repo_view(),
                Err(_) => false,
            },
    ;

    /// Make the profile carrying `id` the only active one; deactivate
    /// all others.
    fn set_active(&mut self, id: &str) -> (r: Result<(), DbError>)
        requires
            old(self).repo_wf(),
        ensures
            final(self).repo_wf(),
            match r {
                Ok(()) => spec_has_id(old(self).repo_view(), id@) && final(self).repo_view()
                    == spec_activate(old(self).repo_view(), id@) && spec_active_count(
                    final(self).repo_view(),
                ) == 1,
                Err(e) => e == DbError::NotFound && !spec_has_id(old(self).repo_view(), id@)
                    && final(self).repo_view() == old(self).repo_view(),
            },
    ;

    /// Remove the profile carrying `id`.  Deleting the active profile
    /// promotes no successor: the repository is left with zero active
    /// profiles.
    fn delete(&mut self, id: &str) -> (r: Result<(), DbError>)
        requires
            old(self).repo_wf(),
        ensures
            final(self).repo_wf(),
            match r {
                Ok(()) => spec_has_id(old(self).repo_view(), id@) && final(self).repo_view()
                    == spec_delete(old(self).repo_view(), id@) && (spec_active_has_id(
                    old(self).repo_view(),
                    id@,
                ) ==> spec_active_count(final(self).repo_view()) == 0) && (!spec_active_has_id(
                    old(self).repo_view(),
                    id@,
                ) ==> spec_active_count(final(self).repo_view()) == spec_active_count(
                    old(self).repo_view(),
                )),
                Err(e) => e == DbError::NotFound && !spec_has_id(old(self).repo_view(), id@)
                    && final(self).repo_view() == old(self).repo_view(),
            },
    ;
}

/// The configuration store.  Profiles are held most recent first.
pub struct NodeConfigStore {
    configs: Vec<NodeConfig>,
}

impl View for NodeConfigStore {
    type V = Seq<NodeConfigView>;

    closed spec fn view(&self) -> Seq<NodeConfigView> {
        config_views(self.configs@)
    }
}

/// Relies on uuid's `Uuid::new_v4` and its display form: a freshly drawn
/// random version-4 UUID rendered as 36 hyphenated lowercase characters.
#[verifier::external_body]
fn fresh_profile_id() -> (r: String)
    ensures
        r@.len() == 36,
{
    uuid::Uuid::new_v4().to_string()
}

impl NodeConfigStore {
    /// Well-formedness: distinct identifiers, at most one active profile.
    pub open spec fn wf(&self) -> bool {
        spec_store_wf(self@)
    }

    /// An empty store.
    pub fn new() -> (r: Self)
        ensures
            r@ == Seq::<NodeConfigView>::empty(),
            r.wf(),
    {
        let r = NodeConfigStore { configs: Vec::new() };
        proof {
            assert(r@ =~= Seq::<NodeConfigView>::empty());
        }
        r
    }

    /// Index of the profile carrying `id`, if any.
    fn find_index(&self, id: &String) -> (r: Option<usize>)
        ensures
            match r {
                Some(i) => spec_find_id(self@, id@) == i && i < self@.len(),
                None => spec_find_id(self@, id@) == -1,
            },
    {
        let mut i: usize = 0;
        while i < self.configs.len()
            invariant
                i <= self.configs.len(),
                forall|j: int| 0 <= j < i ==> self@[j].id != id@,
            decreases self.configs.len() - i,
        {
            if self.configs[i].id == *id {
                proof {
                    assert(self@[i as int].id == id@);
                    assert(spec_has_id(self@, id@));
                    lemma_find_id(self@, id@);
                    assert(spec_find_id(self@, id@) == i);
                }
                return Some(i);
            }
            i += 1;
        }
        proof {
            lemma_find_id(self@, id@);
        }
        None
    }

    /// Create a profile under a caller-supplied fresh identifier.
    ///
    /// The profile becomes active exactly when the store was empty.  A
    /// clash with an existing identifier is rejected, mirroring a
    /// primary-key violation in a persistent table.
    pub fn create_with_id(&mut self, config: NewNodeConfig, id: String) -> (r: Result<
        NodeConfig,
        DbError,
    >)
        requires
            old(self).wf(),
        ensures
            final(self).wf(),
            match r {
                Ok(p) => !spec_has_id(old(self)@, id@) && p@ == (NodeConfigView {
                    id: id@,
                    name: config@.name,
                    rpc_url: config@.rpc_url,
                    rpc_user: config@.rpc_user,
                    rpc_password: config@.rpc_password,
                    network: config@.network,
                    is_active: old(self)@.len() == 0,
                }) && final(self)@ == old(self)@.insert(0, p@),
                Err(e) => spec_has_id(old(self)@, id@) && e is DatabaseError && final(self)@
                    == old(self)@,
            },
    {
        if let Some(_) = self.find_index(&id) {
            proof {
                lemma_find_id(self@, id@);
            }
            return Err(DbError::DatabaseError("duplicate profile id".to_owned()));
        }
        proof {
            lemma_find_id(self@, id@);
        }
        let is_first = self.configs.len() == 0;
        let profile = NodeConfig {
            id,
            name: config.name,
            rpc_url: config.rpc_url,
            rpc_user: config.rpc_user,
            rpc_password: config.rpc_password,
            network: config.network,
            is_active: is_first,
        };
        let created = profile.clone();
        self.configs.insert(0, profile);
        proof {
            let s = old(self)@;
            let p = created@;
            assert(self@ =~= s.insert(0, p));
            lemma_active_count_prepend(s, p);
            s.insert_ensures(0, p);
            assert(spec_ids_distinct(self@)) by {
                assert(forall|j: int| 0 <= j < s.len() ==> self@[j + 1] == s[j]);
                assert(self@[0] == p);
            }
        }
        Ok(created)
    }

}

impl NodeConfigRepository for NodeConfigStore {
    open spec fn repo_view(&self) -> Seq<NodeConfigView> {
        self@
    }

    fn create(&mut self, config: NewNodeConfig) -> (r: Result<NodeConfig, DbError>) {
        let id = fresh_profile_id();
        self.create_with_id(config, id)
    }

    fn get(&self, id: &str) -> (r: Result<Option<NodeConfig>, DbError>) {
        let owned: String = id.to_owned();
        match self.find_index(&owned) {
            Some(i) => {
                let c = self.configs[i].clone();
                proof {
                    lemma_find_id(self@, owned@);
                    assert(self@[i as int] == c@);
                    assert(self@.contains(c@));
                }
                Ok(Some(c))
            },
            None => {
                proof {
                    lemma_find_id(self@, owned@);
                }
                Ok(None)
            },
        }
    }

    fn get_active(&self) -> (r: Result<Option<NodeConfig>, DbError>) {
        let mut i: usize = 0;
        while i < self.configs.len()
            invariant
                i <= self.configs.len(),
                forall|j: int| 0 <= j < i ==> !self@[j].is_active,
            decreases self.configs.len() - i,
        {
            if self.configs[i].is_active {
                let c = self.configs[i].clone();
                proof {
                    assert(self@[i as int] == c@);
                    assert(self@.contains(c@));
                }
                return Ok(Some(c));
            }
            i += 1;
        }
        proof {
            lemma_active_count_zero_iff(self@);
        }
        Ok(None)
    }

    fn list(&self) -> (r: Result<Vec<NodeConfig>, DbError>) {
        let mut out: Vec<NodeConfig> = Vec::new();
        let mut i: usize = 0;
        while i < self.configs.len()
            invariant
                i <= self.configs.len(),
                out@.len() == i,
                forall|j: int| 0 <= j < i ==> out@[j]@ == self@[j],
            decreases self.configs.len() - i,
        {
            out.push(self.configs[i].clone());
            i += 1;
        }
        proof {
            assert(config_views(out@) =~= self@);
        }
        Ok(out)
    }

    fn set_active(&mut self, id: &str) -> (r: Result<(), DbError>) {
        let owned: String = id.to_owned();
        if let None = self.find_index(&owned) {
            proof {
                lemma_find_id(self@, owned@);
            }
            return Err(DbError::NotFound);
        }
        proof {
            lemma_find_id(self@, owned@);
        }
        let ghost s = self@;
        let mut updated: Vec<NodeConfig> = Vec::new();
        let mut i: usize = 0;
        while i < self.configs.len()
            invariant
                i <= self.configs.len(),
                s == self@,
                owned@ == id@,
                updated@.len() == i,
                forall|j: int| 0 <= j < i ==> updated@[j]@ == spec_activate(s, id@)[j],
            decreases self.configs.len() - i,
        {
            let active = self.configs[i].id == owned;
            let mut copy = self.configs[i].clone();
            copy.is_active = active;
            updated.push(copy);
            i += 1;
        }
        self.configs = updated;
        proof {
            assert(self@ =~= spec_activate(s, id@));
            lemma_activate_count_one(s, id@);
            assert(spec_ids_distinct(self@)) by {
                assert(forall|j: int| 0 <= j < self@.len() ==> self@[j].id == s[j].id);
            }
        }
        Ok(())
    }

    fn delete(&mut self, id: &str) -> (r: Result<(), DbError>) {
        let owned: String = id.to_owned();
        let found = self.find_index(&owned);
        proof {
            lemma_find_id(self@, owned@);
        }
        match found {
            None => Err(DbError::NotFound),
            Some(i) => {
                let ghost s = self@;
                self.configs.remove(i);
                proof {
                    let fi = spec_find_id(s, id@);
                    assert(self@ =~= s.remove(fi));
                    lemma_active_count_remove(s, fi);
                    s.remove_ensures(fi);
                    assert(spec_ids_distinct(self@)) by {
                        assert(forall|j: int| 0 <= j < fi ==> self@[j] == s[j]);
                        assert(forall|j: int|
                            fi <= j < self@.len() ==> self@[j] == s[j + 1]);
                    }
                    if spec_active_has_id(s, id@) {
                        let w = choose|k: int|
                            0 <= k < s.len() && #[trigger] s[k].id == id@ && s[k].is_active;
                        assert(spec_ids_distinct(s));
                        assert(w == fi);
                        assert(spec_active_count(self@) == 0);
                    } else {
                        assert(!s[fi].is_active);
                    }
                }
                Ok(())
            },
        }
    }
}

} // verus!
