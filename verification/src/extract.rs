//! Safe archive extraction, as decisions on plain values: entry paths are
//! resolved by structural composition of their components, entries whose path
//! would escape the destination are refused, and the outcome is a list of
//! filesystem actions for the surrounding program to carry out.
//!
//! The whole archive is validated before anything is written: a planning
//! error means no action is handed out at all, so nothing is written once an
//! unsafe entry is encountered.

use vstd::prelude::*;

use crate::errors::ExtractError;

verus! {

/// What one archive entry is, at the level the logic reads: its declared
/// path (raw bytes, `/`- or `\`-separated), whether it is a directory
/// marker, and its decompressed contents.
pub ghost struct EntryModel {
    pub name: Seq<u8>,
    pub is_dir: bool,
    pub data: Seq<u8>,
}

/// One filesystem action of an extraction plan. Paths are relative to the
/// destination directory, `/`-separated, free of `..`, never absolute, and
/// never carry a `:` — so they cannot name a Windows drive or stream and
/// compose to a descendant of the destination on every platform.
#[derive(Debug, PartialEq, Eq)]
pub enum ExtractAction {
    /// Create this directory and any missing ancestors; re-creating an
    /// existing directory is not an error.
    EnsureDir { path: Vec<u8> },
    /// Create this file (ancestors exist from earlier actions or are created
    /// as needed) and fill it with `data`, overwriting any existing
    /// non-symlink file. The executor must first probe the target for a
    /// symbolic link and gate the write on `check_write_target`.
    WriteFile { path: Vec<u8>, data: Vec<u8> },
}

/// The mathematical value of an `ExtractAction`.
pub ghost enum ActionModel {
    EnsureDir { path: Seq<u8> },
    WriteFile { path: Seq<u8>, data: Seq<u8> },
}

impl View for ExtractAction {
    type V = ActionModel;

    open spec fn view(&self) -> ActionModel {
        match self {
            ExtractAction::EnsureDir { path } => ActionModel::EnsureDir { path: path@ },
            ExtractAction::WriteFile { path, data } => ActionModel::WriteFile {
                path: path@,
                data: data@,
            },
        }
    }
}

/// The views of the elements of a vector of byte vectors.
pub open spec fn views_of(s: Seq<Vec<u8>>) -> Seq<Seq<u8>> {
    Seq::new(s.len(), |i: int| s[i]@)
}

/// Folds one raw path component onto the stack of resolved components: empty
/// components and `.` are dropped, `..` steps up one resolved component and
/// fails when there is none to step out of (the path would escape), anything
/// else is kept.
pub open spec fn flush_component(stack: Seq<Seq<u8>>, comp: Seq<u8>) -> Option<Seq<Seq<u8>>> {
    if comp.len() == 0 || comp == seq![46u8] {
        Some(stack)
    } else if comp == seq![46u8, 46u8] {
        if stack.len() == 0 {
            None
        } else {
            Some(stack.drop_last())
        }
    } else {
        Some(stack.push(comp))
    }
}

/// Whether a byte separates path components: `/` (byte 47) or `\` (byte 92).
/// Archive entry names may use either, whatever platform wrote them, so both
/// are parsed as separators on every platform.
pub open spec fn is_separator(b: u8) -> bool {
    b == 47 || b == 92
}

/// Walks the raw entry name from byte `i` on, splitting on the separators,
/// refusing any NUL byte and any `:` (byte 58 — on Windows a colon marks a
/// drive prefix such as `C:` or an NTFS stream, either of which would let a
/// joined path replace the destination), and resolving each component with
/// `flush_component`. `comp` is the component read so far, `stack` the
/// components resolved so far.
pub open spec fn sanitize_loop(
    name: Seq<u8>,
    i: nat,
    comp: Seq<u8>,
    stack: Seq<Seq<u8>>,
) -> Option<Seq<Seq<u8>>>
    decreases name.len() - i,
{
    if i >= name.len() {
        flush_component(stack, comp)
    } else if name[i as int] == 0 || name[i as int] == 58 {
        None
    } else if is_separator(name[i as int]) {
        match flush_component(stack, comp) {
            None => None,
            Some(stack2) => sanitize_loop(name, i + 1, Seq::empty(), stack2),
        }
    } else {
        sanitize_loop(name, i + 1, comp.push(name[i as int]), stack)
    }
}

/// The resolved components of an entry's declared path, or nothing when the
/// path is unsafe: absent (empty), absolute (leading `/` or `\`), holding a
/// NUL or `:` byte (a Windows drive or stream prefix), or stepping outside
/// the destination through `..`. Resolution is by structural composition of
/// the components, never by looking for substrings in the raw name.
pub open spec fn sanitize_path(name: Seq<u8>) -> Option<Seq<Seq<u8>>> {
    if name.len() == 0 {
        None
    } else if is_separator(name[0]) {
        None
    } else {
        sanitize_loop(name, 0, Seq::empty(), Seq::empty())
    }
}

/// The components joined with `/` into one relative path.
pub open spec fn join_components(comps: Seq<Seq<u8>>) -> Seq<u8>
    decreases comps.len(),
{
    if comps.len() == 0 {
        seq![]
    } else if comps.len() == 1 {
        comps[0]
    } else {
        join_components(comps.drop_last()) + seq![47u8] + comps.last()
    }
}

/// The decision for one archive entry: refuse an unsafe path, turn a
/// directory marker into `EnsureDir`, and anything else into `WriteFile`. A
/// file entry whose path resolves to no component at all (such as `.`) has no
/// name to write to and is refused as unsafe.
pub open spec fn plan_one_spec(name: Seq<u8>, is_dir: bool, data: Seq<u8>) -> Result<
    ActionModel,
    ExtractError,
> {
    match sanitize_path(name) {
        None => Err(ExtractError::UnsafePath),
        Some(comps) => if is_dir {
            Ok(ActionModel::EnsureDir { path: join_components(comps) })
        } else if comps.len() == 0 {
            Err(ExtractError::UnsafePath)
        } else {
            Ok(ActionModel::WriteFile { path: join_components(comps), data })
        },
    }
}

/// The plan for a whole sequence of entries, one action per entry in archive
/// order; the first entry that is refused fails the whole plan.
pub open spec fn plan_all(entries: Seq<EntryModel>) -> Result<Seq<ActionModel>, ExtractError>
    decreases entries.len(),
{
    if entries.len() == 0 {
        Ok(seq![])
    } else {
        let e = entries.last();
        match plan_all(entries.drop_last()) {
            Err(err) => Err(err),
            Ok(acts) => match plan_one_spec(e.name, e.is_dir, e.data) {
                Err(err) => Err(err),
                Ok(a) => Ok(acts.push(a)),
            },
        }
    }
}

/// Folds one raw component onto the stack in place; `false` means the path
/// steps outside the destination.
fn flush_push(stack: &mut Vec<Vec<u8>>, comp: Vec<u8>) -> (ok: bool)
    ensures
        flush_component(views_of(old(stack)@), comp@) matches Some(st) ==> ok && views_of(
            final(stack)@,
        ) == st,
        flush_component(views_of(old(stack)@), comp@) is None ==> !ok && *final(stack) == *old(
            stack,
        ),
{
    if comp.len() == 0 || (comp.len() == 1 && comp[0] == 46) {
        proof {
            if comp@.len() == 1 {
                assert(comp@ =~= seq![46u8]);
            }
        }
        true
    } else if comp.len() == 2 && comp[0] == 46 && comp[1] == 46 {
        proof {
            assert(comp@ =~= seq![46u8, 46u8]);
        }
        if stack.len() == 0 {
            false
        } else {
            stack.pop();
            proof {
                assert(views_of(stack@) =~= views_of(old(stack)@).drop_last());
            }
            true
        }
    } else {
        proof {
            assert(comp@ != seq![46u8] && comp@ != seq![46u8, 46u8]) by {
                if comp@.len() == 1 {
                    assert(comp@[0] != 46);
                }
                if comp@.len() == 2 {
                    assert(comp@[0] != 46 || comp@[1] != 46);
                }
            }
        }
        let ghost c = comp@;
        let ghost pre = views_of(stack@);
        stack.push(comp);
        proof {
            assert(views_of(stack@) =~= pre.push(c));
        }
        true
    }
}

/// Resolves an entry's declared path into its safe relative components, or
/// nothing when the path is unsafe.
pub fn sanitize_entry_path(name: &Vec<u8>) -> (r: Option<Vec<Vec<u8>>>)
    ensures
        r matches Some(v) ==> sanitize_path(name@) == Some(views_of(v@)),
        r is None ==> sanitize_path(name@) is None,
{
    if name.len() == 0 {
        return None;
    }
    if name[0] == 47 || name[0] == 92 {
        return None;
    }
    let mut comp: Vec<u8> = Vec::new();
    let mut stack: Vec<Vec<u8>> = Vec::new();
    let mut i: usize = 0;
    proof {
        assert(views_of(stack@) =~= Seq::<Seq<u8>>::empty());
    }
    while i < name.len()
        invariant
            i <= name@.len(),
            0 < name@.len(),
            !is_separator(name@[0]),
            sanitize_loop(name@, i as nat, comp@, views_of(stack@)) == sanitize_path(name@),
        decreases name@.len() - i,
    {
        let b = name[i];
        if b == 0 || b == 58 {
            return None;
        }
        if b == 47 || b == 92 {
            let c = comp;
            comp = Vec::new();
            let ghost cdv = c@;
            let ghost pre = views_of(stack@);
            let ok = flush_push(&mut stack, c);
            if !ok {
                proof {
                    assert(flush_component(pre, cdv) is None);
                }
                return None;
            }
        } else {
            comp.push(b);
        }
        i += 1;
    }
    let ok = flush_push(&mut stack, comp);
    if ok {
        Some(stack)
    } else {
        None
    }
}

/// Joins resolved components with `/` into one relative path.
pub fn join_path(comps: &Vec<Vec<u8>>) -> (r: Vec<u8>)
    ensures
        r@ == join_components(views_of(comps@)),
{
    let ghost dv = views_of(comps@);
    let mut r: Vec<u8> = Vec::new();
    let mut i: usize = 0;
    while i < comps.len()
        invariant
            i <= comps@.len(),
            dv == views_of(comps@),
            r@ == join_components(dv.take(i as int)),
        decreases comps@.len() - i,
    {
        proof {
            assert(dv.take(i + 1).drop_last() =~= dv.take(i as int));
            assert(dv.take(i + 1).last() == dv[i as int]);
        }
        if i > 0 {
            r.push(47);
        }
        let inner = &comps[i];
        let mut j: usize = 0;
        let ghost r_before = r@;
        while j < inner.len()
            invariant
                j <= inner@.len(),
                inner@ == dv[i as int],
                i < comps@.len(),
                r@ == r_before + inner@.take(j as int),
            decreases inner@.len() - j,
        {
            proof {
                assert(inner@.take(j + 1) =~= inner@.take(j as int).push(inner@[j as int]));
            }
            r.push(inner[j]);
            j += 1;
        }
        proof {
            assert(inner@.take(inner@.len() as int) =~= inner@);
            assert(r@ =~= join_components(dv.take(i + 1)));
        }
        i += 1;
    }
    proof {
        assert(dv.take(comps@.len() as int) =~= dv);
    }
    r
}

/// The decision for one archive entry, on plain values: either the one
/// filesystem action it stands for, or the refusal of its path.
pub fn plan_one(name: Vec<u8>, is_dir: bool, data: Vec<u8>) -> (r: Result<
    ExtractAction,
    ExtractError,
>)
    ensures
        ({
            let s = plan_one_spec(name@, is_dir, data@);
            match r {
                Ok(a) => s matches Ok(m) && a@ == m,
                Err(e) => s matches Err(m) && m == e,
            }
        }),
{
    match sanitize_entry_path(&name) {
        None => Err(ExtractError::UnsafePath),
        Some(comps) => {
            if is_dir {
                let path = join_path(&comps);
                Ok(ExtractAction::EnsureDir { path })
            } else if comps.len() == 0 {
                Err(ExtractError::UnsafePath)
            } else {
                let path = join_path(&comps);
                Ok(ExtractAction::WriteFile { path, data })
            }
        },
    }
}

/// The decision for one planned file write, given whether the target path
/// was just observed to exist as a symbolic link: a symlink there signals
/// archive content that should never legitimately occur, and aborts the
/// whole extraction rather than skipping the entry.
pub fn check_write_target(target_is_symlink: bool) -> (r: Result<(), ExtractError>)
    ensures
        r is Ok <==> !target_is_symlink,
        r matches Err(e) ==> e == ExtractError::SymlinkEncountered,
{
    if target_is_symlink {
        Err(ExtractError::SymlinkEncountered)
    } else {
        Ok(())
    }
}

/// A plan that succeeds maps the entries one action apiece, in archive
/// order: the action at each index is exactly the decision for the entry at
/// that index. In particular the actions that write files correspond one to
/// one to the non-directory entries, with identical byte contents.
pub proof fn lemma_plan_preserves_entries(entries: Seq<EntryModel>)
    requires
        plan_all(entries) is Ok,
    ensures
        plan_all(entries)->Ok_0.len() == entries.len(),
        forall|k: int|
            0 <= k < entries.len() ==> (plan_one_spec(
                entries[k].name,
                entries[k].is_dir,
                entries[k].data,
            ) matches Ok(m) && #[trigger] plan_all(entries)->Ok_0[k] == m),
        forall|k: int|
            0 <= k < entries.len() && !entries[k].is_dir ==> (#[trigger] plan_all(
                entries,
            )->Ok_0[k] matches ActionModel::WriteFile { path, data } && data == entries[k].data
                && path == join_components(sanitize_path(entries[k].name)->Some_0)),
        forall|k: int|
            0 <= k < entries.len() && entries[k].is_dir ==> (#[trigger] plan_all(
                entries,
            )->Ok_0[k] matches ActionModel::EnsureDir { path } && path == join_components(
                sanitize_path(entries[k].name)->Some_0,
            )),
    decreases entries.len(),
{
    if entries.len() > 0 {
        lemma_plan_preserves_entries(entries.drop_last());
        assert(forall|k: int|
            0 <= k < entries.len() - 1 ==> entries.drop_last()[k] == entries[k]);
    }
}

/// A plan that fails with an unsafe path points at a real culprit: some
/// entry whose path is refused, every entry before it having been accepted.
/// Since a failed plan hands out no action at all, nothing is written once
/// that entry is encountered.
pub proof fn lemma_plan_error_has_culprit(entries: Seq<EntryModel>)
    requires
        plan_all(entries) is Err,
    ensures
        exists|k: int|
            0 <= k < entries.len() && plan_one_spec(
                entries[k].name,
                entries[k].is_dir,
                entries[k].data,
            ) == Err::<ActionModel, ExtractError>(plan_all(entries)->Err_0) && plan_all(
                #[trigger] entries.take(k),
            ) is Ok,
    decreases entries.len(),
{
    let pre = entries.drop_last();
    let e = entries.last();
    if plan_all(pre) is Err {
        lemma_plan_error_has_culprit(pre);
        let k = choose|k: int|
            0 <= k < pre.len() && plan_one_spec(pre[k].name, pre[k].is_dir, pre[k].data)
                == Err::<ActionModel, ExtractError>(plan_all(pre)->Err_0) && plan_all(
                pre.take(k),
            ) is Ok;
        assert(pre.take(k) =~= entries.take(k));
        assert(pre[k] == entries[k]);
    } else {
        let k = entries.len() - 1;
        assert(entries.take(k) =~= pre);
    }
}

/// If every entry up to some index was accepted and the entry at that index
/// is refused, the whole plan fails with exactly that refusal.
pub proof fn lemma_plan_fails_at_first_error(entries: Seq<EntryModel>, k: int, e: ExtractError)
    requires
        0 <= k < entries.len(),
        plan_all(entries.take(k)) is Ok,
        plan_one_spec(entries[k].name, entries[k].is_dir, entries[k].data) == Err::<
            ActionModel,
            ExtractError,
        >(e),
    ensures
        plan_all(entries) == Err::<Seq<ActionModel>, ExtractError>(e),
    decreases entries.len(),
{
    let pre = entries.drop_last();
    if k == entries.len() - 1 {
        assert(entries.take(k) =~= pre);
    } else {
        assert(pre.take(k) =~= entries.take(k));
        assert(pre[k] == entries[k]);
        lemma_plan_fails_at_first_error(pre, k, e);
    }
}

} // verus!
