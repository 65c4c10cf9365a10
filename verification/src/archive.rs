//! The archive reader: the zip crate parses and decompresses an in-memory
//! archive behind a small trusted interface, and a verified loop turns the
//! entries into an extraction plan.
//!
//! What an opened archive holds is named by `archive_entries`; every trusted
//! wrapper speaks only of that name, and all decisions on the entries are
//! made by the verified functions of `crate::extract`.

use vstd::prelude::*;

use crate::errors::ExtractError;
use crate::extract::{plan_all, plan_one, EntryModel, ExtractAction};
use crate::extract::lemma_plan_fails_at_first_error;

verus! {

#[verifier::external_type_specification]
#[verifier::external_body]
#[verifier::reject_recursive_types(T)]
pub struct ExCursor<T>(std::io::Cursor<T>);

#[verifier::external_type_specification]
#[verifier::external_body]
#[verifier::reject_recursive_types(R)]
pub struct ExZipArchive<R>(zip::ZipArchive<R>);

/// The entries an opened archive holds, in central-directory order: for each
/// one its declared raw name, its directory flag and its decompressed
/// contents.
pub uninterp spec fn archive_entries(a: zip::ZipArchive<std::io::Cursor<Vec<u8>>>) -> Seq<
    EntryModel,
>;

/// What `zip::ZipArchive::new` reads out of the given bytes: the entry list
/// of the archive's central directory, or nothing when the bytes are not a
/// parseable archive.
pub uninterp spec fn zip_parse(bytes: Seq<u8>) -> Option<Seq<EntryModel>>;

/// Whether entry `i` of the opened archive decodes cleanly: `by_index`
/// accepts it and its contents decompress without error. The verdict is a
/// function of the archive's bytes and the index alone; an index out of
/// range never decodes.
pub uninterp spec fn entry_readable(
    a: zip::ZipArchive<std::io::Cursor<Vec<u8>>>,
    i: int,
) -> bool;

/// Whether every entry of the archive the given bytes hold decodes cleanly.
pub uninterp spec fn zip_readable(bytes: Seq<u8>) -> bool;

/// One archive entry handed out as plain values.
pub struct RawEntry {
    pub name: Vec<u8>,
    pub is_dir: bool,
    pub data: Vec<u8>,
}

/// Relies on `zip::ZipArchive::new` over an in-memory cursor: it parses the
/// central directory of the bytes and succeeds exactly when they form a
/// parseable archive; the opened archive then holds that directory's entries,
/// and each entry of the opened archive decodes exactly when the bytes say
/// so.
#[verifier::external_body]
fn open_archive_raw(bytes: Vec<u8>) -> (r: Option<zip::ZipArchive<std::io::Cursor<Vec<u8>>>>)
    ensures
        r is Some <==> zip_parse(bytes@) is Some,
        r matches Some(a) ==> archive_entries(a) == zip_parse(bytes@)->Some_0,
        r matches Some(a) ==> (zip_readable(bytes@) <==> (forall|i: int|
            0 <= i < archive_entries(a).len() ==> entry_readable(a, i))),
{
    zip::ZipArchive::new(std::io::Cursor::new(bytes)).ok()
}

/// Relies on `zip::ZipArchive::len`: the number of entries in the archive's
/// central directory.
#[verifier::external_body]
fn archive_len(a: &zip::ZipArchive<std::io::Cursor<Vec<u8>>>) -> (n: usize)
    ensures
        n == archive_entries(*a).len(),
{
    a.len()
}

/// Relies on `zip::ZipArchive::by_index` and on `ZipFile::name_raw`,
/// `ZipFile::is_dir` and `std::io::Read::read_to_end` over the returned
/// entry: hands out entry `i` as plain values — its declared raw name, its
/// directory flag, and its decompressed contents. Reading succeeds exactly
/// when the entry decodes cleanly, a verdict fixed by the archive's bytes;
/// reading only moves the cursor, so it changes neither what the archive
/// holds nor which entries decode.
#[verifier::external_body]
fn read_entry(a: &mut zip::ZipArchive<std::io::Cursor<Vec<u8>>>, i: usize) -> (r: Option<RawEntry>)
    requires
        i < archive_entries(*old(a)).len(),
    ensures
        archive_entries(*final(a)) == archive_entries(*old(a)),
        r is Some <==> entry_readable(*old(a), i as int),
        forall|j: int| entry_readable(*final(a), j) == entry_readable(*old(a), j),
        r matches Some(e) ==> {
            let m = archive_entries(*old(a))[i as int];
            e.name@ == m.name && e.is_dir == m.is_dir && e.data@ == m.data
        },
{
    let mut f = a.by_index(i).ok()?;
    let name = f.name_raw().to_vec();
    let is_dir = f.is_dir();
    let mut data = Vec::new();
    std::io::Read::read_to_end(&mut f, &mut data).ok()?;
    Some(RawEntry { name, is_dir, data })
}

/// Opens an in-memory archive; bytes that do not form a parseable archive
/// are refused.
pub fn open_archive(bytes: Vec<u8>) -> (r: Result<
    zip::ZipArchive<std::io::Cursor<Vec<u8>>>,
    ExtractError,
>)
    ensures
        r is Ok <==> zip_parse(bytes@) is Some,
        r matches Ok(a) ==> archive_entries(a) == zip_parse(bytes@)->Some_0,
        r matches Ok(a) ==> (zip_readable(bytes@) <==> (forall|i: int|
            0 <= i < archive_entries(a).len() ==> entry_readable(a, i))),
        r matches Err(e) ==> e == ExtractError::BadArchive,
{
    match open_archive_raw(bytes) {
        Some(a) => Ok(a),
        None => Err(ExtractError::BadArchive),
    }
}

/// Turns the whole archive into its extraction plan: one filesystem action
/// per entry, in archive order, exactly as `plan_all` decides. The plan is
/// complete before anything is written, so a refused entry means no action is
/// handed out at all. An entry that cannot be decoded fails the plan with
/// `BadArchive`; when every entry decodes — the common case, and the only way
/// `BadArchive` can be avoided — the result is exactly the verdict of
/// `plan_all` on the archive's entries.
pub fn plan_extraction(a: &mut zip::ZipArchive<std::io::Cursor<Vec<u8>>>) -> (r: Result<
    Vec<ExtractAction>,
    ExtractError,
>)
    ensures
        archive_entries(*final(a)) == archive_entries(*old(a)),
        ({
            let entries = archive_entries(*old(a));
            match r {
                Ok(plan) => plan_all(entries) matches Ok(ms) && plan@.map_values(
                    |x: ExtractAction| x@,
                ) == ms,
                Err(e) => e == ExtractError::BadArchive || plan_all(entries) == Err::<
                    Seq<crate::extract::ActionModel>,
                    ExtractError,
                >(e),
            }
        }),
        (forall|i: int|
            0 <= i < archive_entries(*old(a)).len() ==> entry_readable(*old(a), i)) ==> ({
            let entries = archive_entries(*old(a));
            match plan_all(entries) {
                Ok(ms) => r matches Ok(plan) && plan@.map_values(|x: ExtractAction| x@) == ms,
                Err(e) => r == Err::<Vec<ExtractAction>, ExtractError>(e),
            }
        }),
{
    let ghost entries = archive_entries(*a);
    let n = archive_len(a);
    let mut plan: Vec<ExtractAction> = Vec::new();
    let mut i: usize = 0;
    proof {
        assert(plan@.map_values(|x: ExtractAction| x@) =~= Seq::<
            crate::extract::ActionModel,
        >::empty());
        assert(entries.take(0) =~= Seq::<EntryModel>::empty());
    }
    while i < n
        invariant
            i <= n,
            n == entries.len(),
            entries == archive_entries(*old(a)),
            archive_entries(*a) == entries,
            forall|j: int| entry_readable(*a, j) == entry_readable(*old(a), j),
            plan_all(entries.take(i as int)) == Ok::<_, ExtractError>(
                plan@.map_values(|x: ExtractAction| x@),
            ),
        decreases n - i,
    {
        proof {
            assert(entries.take(i + 1).drop_last() =~= entries.take(i as int));
            assert(entries.take(i + 1).last() == entries[i as int]);
        }
        match read_entry(a, i) {
            None => {
                proof {
                    assert(!entry_readable(*old(a), i as int));
                }
                return Err(ExtractError::BadArchive);
            },
            Some(e) => {
                let ghost m = entries[i as int];
                match plan_one(e.name, e.is_dir, e.data) {
                    Ok(act) => {
                        let ghost before = plan@.map_values(|x: ExtractAction| x@);
                        plan.push(act);
                        proof {
                            assert(plan@.map_values(|x: ExtractAction| x@) =~= before.push(act@));
                        }
                    },
                    Err(err) => {
                        proof {
                            lemma_plan_fails_at_first_error(entries, i as int, err);
                        }
                        return Err(err);
                    },
                }
            },
        }
        i += 1;
    }
    proof {
        assert(entries.take(n as int) =~= entries);
    }
    Ok(plan)
}

/// Opens the archive bytes and plans their extraction in one step: the plan
/// of `plan_all` over the entries the bytes hold, or `BadArchive` when the
/// bytes are not a parseable archive or an entry cannot be decoded. When the
/// bytes parse and every entry decodes, the result is exactly the verdict of
/// `plan_all`.
pub fn extract_plan_from_bytes(bytes: Vec<u8>) -> (r: Result<Vec<ExtractAction>, ExtractError>)
    ensures
        zip_parse(bytes@) is None ==> r == Err::<Vec<ExtractAction>, ExtractError>(
            ExtractError::BadArchive,
        ),
        ({
            let entries = zip_parse(bytes@)->Some_0;
            zip_parse(bytes@) is Some ==> match r {
                Ok(plan) => plan_all(entries) matches Ok(ms) && plan@.map_values(
                    |x: ExtractAction| x@,
                ) == ms,
                Err(e) => e == ExtractError::BadArchive || plan_all(entries) == Err::<
                    Seq<crate::extract::ActionModel>,
                    ExtractError,
                >(e),
            }
        }),
        (zip_parse(bytes@) is Some && zip_readable(bytes@)) ==> ({
            let entries = zip_parse(bytes@)->Some_0;
            match plan_all(entries) {
                Ok(ms) => r matches Ok(plan) && plan@.map_values(|x: ExtractAction| x@) == ms,
                Err(e) => r == Err::<Vec<ExtractAction>, ExtractError>(e),
            }
        }),
{
    match open_archive(bytes) {
        Err(e) => Err(e),
        Ok(mut a) => plan_extraction(&mut a),
    }
}

} // verus!
