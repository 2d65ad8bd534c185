//! The decisions of the engine that keeps one directory per index under its
//! base path: which directory entries are indexes, whether an index may be
//! created or deleted, and how an index directory is opened.

use vstd::prelude::*;
use vstd::string::*;

use crate::errors::{BridgeError, BridgeErrorCode, BridgeResult};
use crate::index::IndexSettingsUpdate;
use crate::task::opt_text;

verus! {

/// The size, in bytes, of the memory map of each index environment: 4 GiB.
pub const ENV_MAP_SIZE: u64 = 4 * 1024 * 1024 * 1024;

/// The text that `str`'s `Debug` writes for a string: the string in double
/// quotes, with special characters escaped.
pub uninterp spec fn debug_text(s: Seq<char>) -> Seq<char>;

/// `<str as Debug>::fmt`: the quoted, escaped form of `s`.
#[verifier::external_body]
fn debug_quoted(s: &str) -> (q: String)
    ensures
        q@ == debug_text(s@),
{
    format!("{s:?}")
}

/// The text that `Path`'s `Debug` writes for a path: the path in double
/// quotes, with special characters escaped.
pub uninterp spec fn path_debug_text(p: Seq<char>) -> Seq<char>;

/// `<Path as Debug>::fmt` of the path `p`: its quoted, escaped form.
#[verifier::external_body]
fn path_debug_quoted(p: &str) -> (q: String)
    ensures
        q@ == path_debug_text(p@),
{
    format!("{:?}", std::path::Path::new(p))
}

/// Refuses a base path that is not an existing directory.
pub fn check_base_path(base_path: &str, is_dir: bool) -> (r: BridgeResult<()>)
    ensures
        r is Ok <==> is_dir,
        r matches Err(e) ==> e.code == BridgeErrorCode::InvalidArgument
            && e.message@ == "base_path is not an existing directory: "@ + base_path@,
{
    if is_dir {
        Ok(())
    } else {
        let mut message = String::from_str("base_path is not an existing directory: ");
        message.append(base_path);
        Err(BridgeError { code: BridgeErrorCode::InvalidArgument, message })
    }
}

/// An entry of the base directory: its name, when it is valid UTF-8, and
/// whether it is a directory.
#[derive(Debug, Clone)]
pub struct IndexDirEntry {
    pub name: Option<String>,
    pub is_dir: bool,
}

/// Whether an entry is an index: a directory with a readable name that does
/// not start with `'.'`.
pub open spec fn is_index_entry(e: IndexDirEntry) -> bool {
    &&& e.is_dir
    &&& e.name is Some
    &&& !(e.name.unwrap()@.len() > 0 && e.name.unwrap()@[0] == '.')
}

/// The names of the index entries among `entries`, in order.
pub open spec fn index_names(entries: Seq<IndexDirEntry>) -> Seq<Seq<char>>
    decreases entries.len(),
{
    if entries.len() == 0 {
        Seq::empty()
    } else {
        let before = index_names(entries.drop_last());
        if is_index_entry(entries.last()) {
            before.push(entries.last().name.unwrap()@)
        } else {
            before
        }
    }
}

/// Whether some directory entry with a readable name is called `name`.
pub open spec fn is_directory_named(entries: Seq<IndexDirEntry>, name: Seq<char>) -> bool {
    exists|i: int| 0 <= i < entries.len() && (#[trigger] entries[i]).is_dir && entries[i].name is Some
        && entries[i].name.unwrap()@ == name
}

/// Whether a name is hidden: it starts with a dot.
pub open spec fn starts_with_dot(name: Seq<char>) -> bool {
    name.len() > 0 && name[0] == '.'
}

proof fn lemma_index_names(entries: Seq<IndexDirEntry>)
    ensures
        forall|k: int| 0 <= k < index_names(entries).len() ==> !starts_with_dot(#[trigger] index_names(entries)[k]),
        forall|k: int| 0 <= k < index_names(entries).len() ==> is_directory_named(entries, #[trigger] index_names(entries)[k]),
        forall|i: int| 0 <= i < entries.len() && (#[trigger] entries[i]).is_dir && entries[i].name is Some
            && !starts_with_dot(entries[i].name.unwrap()@)
            ==> index_names(entries).contains(entries[i].name.unwrap()@),
    decreases entries.len(),
{
    if entries.len() > 0 {
        let pre = entries.drop_last();
        lemma_index_names(pre);
        let names = index_names(entries);
        let before = index_names(pre);
        assert forall|k: int| 0 <= k < names.len() implies is_directory_named(entries, #[trigger] names[k]) by {
            if k < before.len() {
                assert(names[k] == before[k]);
                assert(is_directory_named(pre, before[k]));
                let i = choose|i: int| 0 <= i < pre.len() && (#[trigger] pre[i]).is_dir && pre[i].name is Some
                    && pre[i].name.unwrap()@ == before[k];
                assert(entries[i] == pre[i]);
            } else {
                assert(entries[entries.len() - 1] == entries.last());
            }
        }
        assert forall|i: int| 0 <= i < entries.len() && (#[trigger] entries[i]).is_dir && entries[i].name is Some
            && !starts_with_dot(entries[i].name.unwrap()@)
            implies names.contains(entries[i].name.unwrap()@) by {
            if i < pre.len() {
                assert(entries[i] == pre[i]);
                let k = choose|k: int| 0 <= k < before.len() && before[k] == pre[i].name.unwrap()@;
                assert(names[k] == before[k]);
            } else {
                assert(entries[i] == entries.last());
                assert(names[names.len() - 1] == entries.last().name.unwrap()@);
            }
        }
    }
}

/// The listed indexes are exactly the visible directories: no listed name
/// starts with a dot, every listed name is that of a directory entry, and
/// every directory whose readable name does not start with a dot is listed.
pub proof fn law_listing_is_visible_directories(entries: Seq<IndexDirEntry>)
    ensures
        forall|k: int| 0 <= k < index_names(entries).len() ==> !starts_with_dot(#[trigger] index_names(entries)[k]),
        forall|k: int| 0 <= k < index_names(entries).len() ==> is_directory_named(entries, #[trigger] index_names(entries)[k]),
        forall|i: int| 0 <= i < entries.len() && (#[trigger] entries[i]).is_dir && entries[i].name is Some
            && !starts_with_dot(entries[i].name.unwrap()@)
            ==> index_names(entries).contains(entries[i].name.unwrap()@),
{
    lemma_index_names(entries);
}

/// The uids of the indexes present: the entries that are directories with a
/// readable name not starting with `'.'`, in the order listed.
pub fn visible_index_names(entries: &Vec<IndexDirEntry>) -> (names: Vec<String>)
    ensures
        names@.map_values(|s: String| s@) == index_names(entries@),
        forall|k: int| 0 <= k < names@.len() ==> !starts_with_dot((#[trigger] names@[k])@),
{
    let mut names: Vec<String> = Vec::new();
    let mut i: usize = 0;
    while i < entries.len()
        invariant
            i <= entries@.len(),
            names@.map_values(|s: String| s@) == index_names(entries@.subrange(0, i as int)),
        decreases entries@.len() - i,
    {
        let e = &entries[i];
        let ghost before = names@;
        assert(entries@.subrange(0, i + 1).drop_last() =~= entries@.subrange(0, i as int));
        assert(entries@.subrange(0, i + 1).last() == *e);
        if e.is_dir {
            match &e.name {
                Some(name) => {
                    let n = name.as_str().unicode_len();
                    let hidden = n > 0 && name.as_str().get_char(0) == '.';
                    if !hidden {
                        names.push(name.clone());
                        assert(names@.map_values(|s: String| s@) =~= before.map_values(|s: String| s@).push(name@));
                    }
                },
                None => {},
            }
        }
        i = i + 1;
    }
    assert(entries@.subrange(0, entries@.len() as int) =~= entries@);
    proof {
        lemma_index_names(entries@);
        assert forall|k: int| 0 <= k < names@.len() implies !starts_with_dot((#[trigger] names@[k])@) by {
            assert(names@.map_values(|s: String| s@)[k] == names@[k]@);
        }
    }
    names
}

/// The message of the error for creating an index that already exists.
pub open spec fn already_exists_message(uid: Seq<char>, index_path: Seq<char>) -> Seq<char> {
    "Index "@ + debug_text(uid) + " already exists at "@ + path_debug_text(index_path)
}

/// The message of the error for deleting an index that does not exist.
pub open spec fn not_found_message(uid: Seq<char>) -> Seq<char> {
    "Index "@ + debug_text(uid) + " does not exist"@
}

/// Refuses to create the index `uid` when its directory already exists.
pub fn check_index_absent(uid: &str, index_path: &str, exists: bool) -> (r: BridgeResult<()>)
    ensures
        r is Ok <==> !exists,
        r matches Err(e) ==> e.code == BridgeErrorCode::IndexAlreadyExists
            && e.message@ == already_exists_message(uid@, index_path@),
{
    if exists {
        let mut message = String::from_str("Index ");
        let q = debug_quoted(uid);
        message.append(q.as_str());
        message.append(" already exists at ");
        let p = path_debug_quoted(index_path);
        message.append(p.as_str());
        Err(BridgeError { code: BridgeErrorCode::IndexAlreadyExists, message })
    } else {
        Ok(())
    }
}

/// Refuses to delete the index `uid` when its directory does not exist.
pub fn check_index_present(uid: &str, exists: bool) -> (r: BridgeResult<()>)
    ensures
        r is Ok <==> exists,
        r matches Err(e) ==> e.code == BridgeErrorCode::IndexNotFound
            && e.message@ == not_found_message(uid@),
{
    if exists {
        Ok(())
    } else {
        let mut message = String::from_str("Index ");
        let q = debug_quoted(uid);
        message.append(q.as_str());
        message.append(" does not exist");
        Err(BridgeError { code: BridgeErrorCode::IndexNotFound, message })
    }
}

/// The settings a newly created index starts with: its primary key, the
/// field whose value identifies a document, and nothing else.
pub fn creation_settings(primary_key: &str) -> (s: IndexSettingsUpdate)
    ensures
        opt_text(s.primary_key) == Some(primary_key@),
        s.searchable_attributes is None,
        s.displayed_attributes is None,
        s.filterable_attributes is None,
        s.sortable_attributes is None,
{
    IndexSettingsUpdate {
        primary_key: Some(String::from_str(primary_key)),
        searchable_attributes: None,
        displayed_attributes: None,
        filterable_attributes: None,
        sortable_attributes: None,
    }
}

/// The primary key a new handle reports: the one requested when the index is
/// being created, and the one the index already has when it exists, the
/// request being ignored then.
pub fn handle_primary_key(already_exists: bool, requested: Option<String>, stored: Option<String>) -> (k: Option<String>)
    ensures
        opt_text(k) == (if already_exists { opt_text(stored) } else { opt_text(requested) }),
{
    if already_exists {
        stored
    } else {
        requested
    }
}

/// How an index directory is opened.
#[derive(Debug, Clone, Copy, PartialEq, Eq, Structural)]
pub enum OpenMode {
    /// The directory holds an index: open it.
    Open,
    /// The directory was just made: create a new index in it.
    Create,
}

/// An existing index directory is opened; a new one gets a new index.
pub fn open_mode(already_exists: bool) -> (m: OpenMode)
    ensures
        m == (if already_exists { OpenMode::Open } else { OpenMode::Create }),
{
    if already_exists {
        OpenMode::Open
    } else {
        OpenMode::Create
    }
}

} // verus!
