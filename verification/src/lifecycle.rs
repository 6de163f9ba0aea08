//! Lifecycle of agent filesystem instances: creation and forced
//! re-creation.
//!
//! Initialisation validates the identity and the optional overlay
//! base, then consults the storage path.  An existing instance is a
//! hard failure unless force is given, in which case every file the
//! identity owns in the storage root is scheduled for removal first.
//! A file is owned by an identity when its name is the identity
//! itself or the identity followed by `.`; plain prefix matching
//! would also claim the files of an identity this one is a prefix of
//! (such as `agent-10` beside `agent-1`), so ownership stops at the
//! extension dot.
//!
//! The planner decides; the caller performs the probes and the I/O
//! and hands the outcomes in.  Every failure is terminal for the
//! invocation: nothing is retried, and no mutation starts before all
//! validation has passed.

use vstd::prelude::*;

use crate::errors::ErrorKind;
use crate::identity::{spec_storage_path, valid_id, validate};

verus! {

/// What a valid init invocation asks the caller to do: remove the
/// listed files, then have the store create or open the instance at
/// the storage path, as an overlay when a base is present.
#[derive(Debug)]
pub struct InitPlan {
    /// The resolved identity.
    pub id: String,
    /// The storage path of the primary store file.
    pub storage_path: String,
    /// The files in the storage root to remove before creation, in
    /// listing order; empty unless force re-creation applies.
    pub remove: Vec<String>,
    /// Whether the instance overlays a host base directory.
    pub overlay: bool,
}

/// Whether the file called `name` belongs to the instance `id`: the
/// name is the identity itself or the identity followed by a dot.
pub open spec fn owned_by(name: Seq<char>, id: Seq<char>) -> bool {
    name.len() >= id.len() && name.subrange(0, id.len() as int) == id && (name.len() == id.len()
        || name[id.len() as int] == '.')
}

/// The files among `entries` that `id` owns, in listing order.
pub open spec fn spec_owned_files(entries: Seq<Seq<char>>, id: Seq<char>) -> Seq<Seq<char>>
    decreases entries.len(),
{
    if entries.len() == 0 {
        Seq::<Seq<char>>::empty()
    } else {
        let rest = spec_owned_files(entries.drop_first(), id);
        if owned_by(entries[0], id) {
            seq![entries[0]] + rest
        } else {
            rest
        }
    }
}

/// Forced cleanup is exact: it takes every file the identity owns and
/// nothing else, so an identity that is a prefix of another never
/// claims the other's files.
pub proof fn lemma_force_cleanup_exact(entries: Seq<Seq<char>>, id: Seq<char>)
    ensures
        forall|i: int|
            0 <= i < entries.len() && owned_by(#[trigger] entries[i], id) ==> spec_owned_files(
                entries,
                id,
            ).contains(entries[i]),
        forall|k: int|
            0 <= k < spec_owned_files(entries, id).len() ==> owned_by(
                #[trigger] spec_owned_files(entries, id)[k],
                id,
            ) && entries.contains(spec_owned_files(entries, id)[k]),
    decreases entries.len(),
{
    if entries.len() > 0 {
        let d = entries.drop_first();
        let rest = spec_owned_files(d, id);
        lemma_force_cleanup_exact(d, id);
        assert forall|i: int| 0 <= i < entries.len() && owned_by(
            #[trigger] entries[i],
            id,
        ) implies spec_owned_files(entries, id).contains(entries[i]) by {
            if i == 0 {
                assert(spec_owned_files(entries, id)[0] == entries[0]);
            } else {
                assert(d[i - 1] == entries[i]);
                assert(rest.contains(entries[i]));
                let k = choose|k: int| 0 <= k < rest.len() && rest[k] == entries[i];
                if owned_by(entries[0], id) {
                    assert(spec_owned_files(entries, id)[k + 1] == entries[i]);
                } else {
                    assert(spec_owned_files(entries, id)[k] == entries[i]);
                }
            }
        }
        assert forall|k: int| 0 <= k < spec_owned_files(entries, id).len() implies owned_by(
            #[trigger] spec_owned_files(entries, id)[k],
            id,
        ) && entries.contains(spec_owned_files(entries, id)[k]) by {
            let x = spec_owned_files(entries, id)[k];
            if owned_by(entries[0], id) && k == 0 {
                assert(x == entries[0]);
                assert(entries.contains(entries[0]));
            } else {
                let kr: int = if owned_by(entries[0], id) {
                    k - 1
                } else {
                    k
                };
                assert(rest[kr] == x);
                assert(owned_by(x, id) && d.contains(x));
                let m = choose|m: int| 0 <= m < d.len() && d[m] == x;
                assert(entries[m + 1] == x);
                assert(entries.contains(x));
            }
        }
    }
}

/// Distinct valid identities never own the same file: an identity's
/// characters cannot include the dot that separates another, shorter
/// identity from its extension.  A forced cleanup of one identity can
/// therefore never touch another's files, even when one identity is a
/// prefix of the other.
pub proof fn lemma_ownership_exclusive(name: Seq<char>, id1: Seq<char>, id2: Seq<char>)
    requires
        valid_id(id1),
        valid_id(id2),
        owned_by(name, id1),
        owned_by(name, id2),
    ensures
        id1 == id2,
{
    if id1.len() < id2.len() {
        assert(name[id1.len() as int] == '.');
        assert(id2[id1.len() as int] == name.subrange(0, id2.len() as int)[id1.len() as int]);
        assert(crate::identity::is_id_char(id2[id1.len() as int]));
        assert(false);
    } else if id2.len() < id1.len() {
        assert(name[id2.len() as int] == '.');
        assert(id1[id2.len() as int] == name.subrange(0, id1.len() as int)[id2.len() as int]);
        assert(crate::identity::is_id_char(id1[id2.len() as int]));
        assert(false);
    } else {
        assert(id1 =~= name.subrange(0, id1.len() as int));
        assert(id2 =~= name.subrange(0, id2.len() as int));
    }
}

/// True iff the file called `name` belongs to the instance `id`.
pub fn file_owned_by(name: &str, id: &str) -> (r: bool)
    ensures
        r == owned_by(name@, id@),
{
    let nlen = name.unicode_len();
    let ilen = id.unicode_len();
    if nlen < ilen {
        return false;
    }
    let head = String::from_str(name.substring_char(0, ilen));
    let idwhole = String::from_str(id);
    if !head.eq(&idwhole) {
        return false;
    }
    if nlen == ilen {
        return true;
    }
    let c = name.get_char(ilen);
    c == '.'
}

/// Plans the initialisation of an instance.  The caller reports what
/// it probed: whether the base (if any) exists and is a directory,
/// whether the storage path already exists, and the file names in the
/// storage root.  An invalid identity, an unusable base and an
/// existing unforced instance fail, in that order of checks, before
/// anything would be mutated; otherwise the plan lists exactly the
/// files the identity owns (none unless this is a forced
/// re-creation), to be removed before the store creates or opens the
/// instance.
pub fn init_plan(
    id: &str,
    force: bool,
    base_given: bool,
    base_exists: bool,
    base_is_dir: bool,
    storage_root: &str,
    storage_exists: bool,
    entries: &Vec<String>,
) -> (r: Result<InitPlan, ErrorKind>)
    ensures
        !valid_id(id@) ==> r == Err::<InitPlan, ErrorKind>(ErrorKind::InvalidIdentity),
        (valid_id(id@) && base_given && !(base_exists && base_is_dir)) ==> r == Err::<
            InitPlan,
            ErrorKind,
        >(ErrorKind::InvalidBase),
        (valid_id(id@) && (base_given ==> base_exists && base_is_dir) && storage_exists && !force)
            ==> r == Err::<InitPlan, ErrorKind>(ErrorKind::AlreadyExists),
        (valid_id(id@) && (base_given ==> base_exists && base_is_dir) && (!storage_exists
            || force)) ==> (r matches Ok(p) && p.id@ == id@ && p.storage_path@
            == spec_storage_path(storage_root@, id@) && p.overlay == base_given
            && p.remove@.map_values(|t: String| t@) == (if storage_exists && force {
            spec_owned_files(entries@.map_values(|t: String| t@), id@)
        } else {
            Seq::<Seq<char>>::empty()
        })),
{
    if !validate(id) {
        return Err(ErrorKind::InvalidIdentity);
    }
    if base_given && !(base_exists && base_is_dir) {
        return Err(ErrorKind::InvalidBase);
    }
    let storage_path = crate::identity::resolve_storage_path(storage_root, id);
    let mut remove: Vec<String> = Vec::new();
    if storage_exists {
        if !force {
            return Err(ErrorKind::AlreadyExists);
        }
        let ghost all = entries@.map_values(|t: String| t@);
        let n = entries.len();
        let mut i: usize = 0;
        proof {
            assert(all.subrange(0, n as int) =~= all);
            assert(remove@.map_values(|t: String| t@) =~= Seq::<Seq<char>>::empty());
        }
        while i < n
            invariant
                0 <= i <= n,
                n == entries@.len(),
                all == entries@.map_values(|t: String| t@),
                spec_owned_files(all, id@) =~~= remove@.map_values(|t: String| t@)
                    + spec_owned_files(all.subrange(i as int, n as int), id@),
            decreases n - i,
        {
            let ghost tail = all.subrange(i as int, n as int);
            let ghost prefix = remove@.map_values(|t: String| t@);
            proof {
                assert(tail.len() > 0);
                assert(tail[0] == all[i as int]);
                assert(tail[0] == entries@[i as int]@);
                assert(tail.drop_first() =~= all.subrange(i as int + 1, n as int));
            }
            if file_owned_by(entries[i].as_str(), id) {
                let kept = entries[i].clone();
                proof {
                    assert(prefix + (seq![tail[0]] + spec_owned_files(tail.drop_first(), id@))
                        =~~= prefix.push(tail[0]) + spec_owned_files(tail.drop_first(), id@));
                }
                remove.push(kept);
                proof {
                    assert(remove@.map_values(|t: String| t@) =~= prefix.push(tail[0]));
                }
            }
            i = i + 1;
        }
        proof {
            assert(all.subrange(n as int, n as int) =~= Seq::<Seq<char>>::empty());
            assert(remove@.map_values(|t: String| t@) + Seq::<Seq<char>>::empty() =~~= remove@
                .map_values(|t: String| t@));
        }
    }
    proof {
        if !(storage_exists && force) {
            assert(remove@.map_values(|t: String| t@) =~= Seq::<Seq<char>>::empty());
        }
    }
    let owned_id = String::from_str(id);
    Ok(InitPlan { id: owned_id, storage_path, remove, overlay: base_given })
}

/// The creation notice an init emits: it names the storage path and
/// the identity, and distinguishes an overlay instance, whose base it
/// also names, from a plain one.
pub open spec fn spec_notice(
    overlay: bool,
    path: Seq<char>,
    id: Seq<char>,
    base: Seq<char>,
) -> Seq<char> {
    if overlay {
        "Created overlay filesystem: "@ + path + "\nAgent ID: "@ + id + "\nBase: "@ + base
    } else {
        "Created agent filesystem: "@ + path + "\nAgent ID: "@ + id
    }
}

/// Renders the creation notice for a plan; `base` is read only for an
/// overlay instance.
pub fn creation_notice(plan: &InitPlan, base: &str) -> (r: String)
    ensures
        r@ == spec_notice(plan.overlay, plan.storage_path@, plan.id@, base@),
{
    if plan.overlay {
        String::from_str("Created overlay filesystem: ").concat(plan.storage_path.as_str()).concat(
            "\nAgent ID: ",
        ).concat(plan.id.as_str()).concat("\nBase: ").concat(base)
    } else {
        String::from_str("Created agent filesystem: ").concat(plan.storage_path.as_str()).concat(
            "\nAgent ID: ",
        ).concat(plan.id.as_str())
    }
}

} // verus!
