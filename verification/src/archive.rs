//! The zip boundary: the archive type of the `zip` crate is read here, behind
//! trusted declarations, and everything decided about its entries is verified
//! against the names those declarations give to what the bytes hold. An
//! archive is only ever read from memory; the caller holds the downloaded
//! bytes. Zip parsing and decompression are functions of those bytes alone,
//! so the whole install plan is pinned by the contracts: which archives are
//! refused, which entries are skipped as unreadable, and exactly which
//! actions the readable entries contribute.
use vstd::prelude::*;
use crate::extract::{
    actions_model, actions_safe, entries_model, plan_extraction, plan_spec, ArchiveEntry,
    EntryModel, FsAction,
};
use crate::install::InstallError;

verus! {

/// The zip crate's archive reader, held opaquely.
#[verifier::external_type_specification]
#[verifier::external_body]
#[verifier::reject_recursive_types(R)]
pub struct ExZipArchive<R>(zip::read::ZipArchive<R>);

/// The standard in-memory reader the archive is opened over.
#[verifier::external_type_specification]
#[verifier::external_body]
#[verifier::reject_recursive_types(T)]
pub struct ExCursor<T>(std::io::Cursor<T>);

/// The zip crate's error type, mapped to the library's own errors.
#[verifier::external_type_specification]
#[verifier::external_body]
pub struct ExZipError(zip::result::ZipError);

/// One entry as the archive stores it: its stored name, and its decompressed
/// bytes when they can be read at all — `None` when the entry is corrupt,
/// encrypted, compressed with an unsupported method, or fails its checksum.
pub struct StoredEntryModel {
    pub name: Seq<char>,
    pub data: Option<Seq<u8>>,
}

/// The entries an opened archive holds, in index order.
pub uninterp spec fn zip_entries(z: zip::read::ZipArchive<std::io::Cursor<Vec<u8>>>) -> Seq<
    StoredEntryModel,
>;

/// What a byte string holds when read as a zip archive: `None` when it does
/// not parse as one, otherwise its entry list. Parsing and decompression
/// depend on the bytes alone.
pub uninterp spec fn entries_of(bytes: Seq<u8>) -> Option<Seq<StoredEntryModel>>;

/// The readable entries among the stored ones, in order, with their bytes.
pub open spec fn readable_entries(raw: Seq<StoredEntryModel>) -> Seq<EntryModel>
    decreases raw.len(),
{
    if raw.len() == 0 {
        Seq::empty()
    } else {
        readable_entries(raw.drop_last()) + match raw.last().data {
            Some(d) => seq![EntryModel { name: raw.last().name, data: d }],
            None => Seq::empty(),
        }
    }
}

/// The indices of the unreadable entries, in order.
pub open spec fn unreadable_indices(raw: Seq<StoredEntryModel>) -> Seq<int>
    decreases raw.len(),
{
    if raw.len() == 0 {
        Seq::empty()
    } else {
        unreadable_indices(raw.drop_last()) + if raw.last().data is None {
            seq![raw.len() - 1]
        } else {
            Seq::empty()
        }
    }
}

/// Relies on zip::ZipArchive::new: parses the central directory of a zip
/// archive held in memory; it succeeds exactly on the byte strings that
/// parse, and the opened archive holds exactly what the bytes hold.
#[verifier::external_body]
fn zip_open(bytes: Vec<u8>) -> (r: Result<
    zip::read::ZipArchive<std::io::Cursor<Vec<u8>>>,
    zip::result::ZipError,
>)
    ensures
        r is Ok <==> entries_of(bytes@) is Some,
        r matches Ok(z) ==> Some(zip_entries(z)) == entries_of(bytes@),
{
    zip::read::ZipArchive::new(std::io::Cursor::new(bytes))
}

/// Relies on zip::ZipArchive::len: the number of entries in the archive's
/// central directory.
#[verifier::external_body]
fn zip_len(z: &zip::read::ZipArchive<std::io::Cursor<Vec<u8>>>) -> (r: usize)
    ensures
        r == zip_entries(*z).len(),
{
    z.len()
}

/// Relies on zip::ZipArchive::by_index and the entry's Read implementation:
/// hands out entry `i`'s stored name and decompressed bytes. Reading only
/// moves the archive's cursor; the entry list stays as it was. The read
/// succeeds exactly when the entry is readable; every failure — a corrupt
/// entry, an unsupported compression method, encryption, a checksum
/// mismatch — comes back as `None`.
#[verifier::external_body]
fn zip_read_entry(z: &mut zip::read::ZipArchive<std::io::Cursor<Vec<u8>>>, i: usize) -> (r: Option<
    ArchiveEntry,
>)
    requires
        i < zip_entries(*old(z)).len(),
    ensures
        zip_entries(*final(z)) == zip_entries(*old(z)),
        r is Some <==> zip_entries(*old(z))[i as int].data is Some,
        r matches Some(e) ==> e@.name == zip_entries(*old(z))[i as int].name && Some(e@.data)
            == zip_entries(*old(z))[i as int].data,
{
    let mut file = match z.by_index(i) {
        Ok(f) => f,
        Err(_) => {
            return None;
        },
    };
    let name = file.name().to_string();
    let mut data: Vec<u8> = Vec::new();
    match std::io::Read::read_to_end(&mut file, &mut data) {
        Ok(_) => Some(ArchiveEntry { name, data }),
        Err(_) => None,
    }
}

/// Reads the archive's entries in order: exactly the readable ones, with
/// their bytes, beside the indices of the unreadable ones, which are skipped
/// and never fail the read.
fn read_entries(z: &mut zip::read::ZipArchive<std::io::Cursor<Vec<u8>>>) -> (r: (
    Vec<ArchiveEntry>,
    Vec<usize>,
))
    ensures
        zip_entries(*final(z)) == zip_entries(*old(z)),
        entries_model(r.0@) == readable_entries(zip_entries(*old(z))),
        r.1@.map_values(|u: usize| u as int) == unreadable_indices(zip_entries(*old(z))),
{
    let ghost entries0 = zip_entries(*z);
    let n = zip_len(z);
    let mut kept: Vec<ArchiveEntry> = Vec::new();
    let mut skipped: Vec<usize> = Vec::new();
    let mut i: usize = 0;
    while i < n
        invariant
            zip_entries(*z) == entries0,
            n == entries0.len(),
            i <= n,
            entries_model(kept@) == readable_entries(entries0.take(i as int)),
            skipped@.map_values(|u: usize| u as int) == unreadable_indices(
                entries0.take(i as int),
            ),
        decreases n - i,
    {
        let ghost kept_before = kept@;
        let ghost skipped_before = skipped@;
        match zip_read_entry(z, i) {
            Some(e) => {
                let ghost em = e@;
                kept.push(e);
                proof {
                    assert(entries_model(kept@) =~= entries_model(kept_before).push(em));
                }
            },
            None => {
                skipped.push(i);
                proof {
                    assert(skipped@.map_values(|u: usize| u as int) =~= skipped_before.map_values(
                        |u: usize| u as int,
                    ).push(i as int));
                }
            },
        }
        proof {
            assert(entries0.take(i + 1).drop_last() =~= entries0.take(i as int));
            assert(entries0.take(i + 1).last() == entries0[i as int]);
            assert(entries_model(kept@) =~= readable_entries(entries0.take(i + 1)));
            assert(skipped@.map_values(|u: usize| u as int) =~= unreadable_indices(
                entries0.take(i + 1),
            ));
        }
        i = i + 1;
    }
    proof {
        assert(entries0.take(entries0.len() as int) =~= entries0);
    }
    (kept, skipped)
}

/// The planned installation of a downloaded archive: the filesystem actions
/// of its readable entries, and the indices of the entries that were skipped
/// as unreadable, for the caller to report.
#[derive(Debug, PartialEq, Eq)]
pub struct InstallPlan {
    pub actions: Vec<FsAction>,
    pub skipped: Vec<usize>,
}

/// Opens the downloaded bytes as a zip archive and plans the extraction of
/// its entries. It fails exactly when the bytes do not parse as an archive;
/// an unreadable entry never fails the install, it is skipped and reported.
/// The actions are exactly the plan of the readable entries, so every one of
/// them stays inside the extraction root.
pub fn plan_install(bytes: Vec<u8>) -> (r: Result<InstallPlan, InstallError>)
    ensures
        r is Ok <==> entries_of(bytes@) is Some,
        r is Err ==> r == Err::<InstallPlan, InstallError>(InstallError::ArchiveUnreadable),
        r matches Ok(p) ==> actions_model(p.actions@) == plan_spec(
            readable_entries(entries_of(bytes@)->0),
        ) && p.skipped@.map_values(|u: usize| u as int) == unreadable_indices(
            entries_of(bytes@)->0,
        ) && actions_safe(actions_model(p.actions@)),
{
    let mut z = match zip_open(bytes) {
        Ok(z) => z,
        Err(_) => {
            return Err(InstallError::ArchiveUnreadable);
        },
    };
    let (entries, skipped) = read_entries(&mut z);
    let actions = plan_extraction(&entries);
    Ok(InstallPlan { actions, skipped })
}

} // verus!
