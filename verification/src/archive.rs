//! Cartridge images packed in a zip archive: the first entry named like a Game Boy ROM.
use vstd::prelude::*;
use vstd::string::*;

verus! {

/// The number of entries of a zip archive, or `None` when it cannot be read as one.
pub uninterp spec fn zip_entry_count(archive: Seq<u8>) -> Option<nat>;

/// Entry `i` of a zip archive: `None` when it cannot be opened, else its name when the
/// name is a safe relative path (as text, invalid UTF-8 replaced), `Some(None)` otherwise.
pub uninterp spec fn zip_entry_name(archive: Seq<u8>, i: nat) -> Option<Option<Seq<char>>>;

/// The unpacked contents of entry `i` of a zip archive, or `None` on any error.
pub uninterp spec fn zip_entry_data(archive: Seq<u8>, i: nat) -> Option<Seq<u8>>;

pub open spec fn opt_text(o: Option<String>) -> Option<Seq<char>> {
    match o {
        Some(s) => Some(s@),
        None => None,
    }
}

/// `zip::ZipArchive::new` on the bytes, then `len`: the number of entries, named
/// `zip_entry_count`; `None` where the crate reports an error.
#[verifier::external_body]
fn archive_len(archive: &[u8]) -> (r: Option<usize>)
    ensures
        r is Some == zip_entry_count(archive@) is Some,
        r matches Some(n) ==> zip_entry_count(archive@) == Some(n as nat),
{
    match zip::ZipArchive::new(std::io::Cursor::new(archive)) {
        Ok(a) => Some(a.len()),
        Err(_) => None,
    }
}

/// `ZipArchive::by_index_decrypt(i, &[])` (entry `i`, with the empty password) then
/// `ZipFile::enclosed_name`, the path as text (`to_string_lossy`): named
/// `zip_entry_name`; `None` where the crate reports an error or a wrong password. The
/// empty password is handed over so that the crate returns, rather than unwraps, its
/// password check: an entry not marked encrypted ignores it, and one marked encrypted
/// is refused unless the empty password happens to pass ZipCrypto's one-byte check.
#[verifier::external_body]
fn archive_entry_name(archive: &[u8], i: usize) -> (r: Option<Option<String>>)
    ensures
        r is Some == zip_entry_name(archive@, i as nat) is Some,
        r matches Some(o) ==> zip_entry_name(archive@, i as nat) == Some(opt_text(o)),
{
    let mut a = match zip::ZipArchive::new(std::io::Cursor::new(archive)) {
        Ok(a) => a,
        Err(_) => return None,
    };
    let f = match a.by_index_decrypt(i, &[]) {
        Ok(Ok(f)) => f,
        _ => return None,
    };
    match f.enclosed_name() {
        Some(p) => Some(Some(p.to_string_lossy().into_owned())),
        None => Some(None),
    }
}

/// `ZipArchive::by_index_decrypt(i, &[])` (as in `archive_entry_name`) read to its end:
/// named `zip_entry_data`; `None` where the crate reports an error or a wrong password.
#[verifier::external_body]
fn archive_entry(archive: &[u8], i: usize) -> (r: Option<Vec<u8>>)
    ensures
        r is Some == zip_entry_data(archive@, i as nat) is Some,
        r matches Some(d) ==> zip_entry_data(archive@, i as nat) == Some(d@),
{
    let mut a = match zip::ZipArchive::new(std::io::Cursor::new(archive)) {
        Ok(a) => a,
        Err(_) => return None,
    };
    let mut f = match a.by_index_decrypt(i, &[]) {
        Ok(Ok(f)) => f,
        _ => return None,
    };
    let mut v = Vec::new();
    match std::io::Read::read_to_end(&mut f, &mut v) {
        Ok(_) => Some(v),
        Err(_) => None,
    }
}

/// Why no cartridge image came out of an archive.
#[derive(Clone, Copy, PartialEq, Eq, Structural, Debug)]
pub enum LoadError {
    /// The archive, or one of its entries, could not be read.
    Archive,
    /// No entry is named like a Game Boy ROM.
    NoGbFile,
}

/// A path without its trailing slashes (a path's last component ignores them).
pub open spec fn trim_slashes(n: Seq<char>) -> Seq<char>
    decreases n.len(),
{
    if n.len() > 0 && n.last() == '/' {
        trim_slashes(n.drop_last())
    } else {
        n
    }
}

/// A path whose extension is `gb` or `gbc`: trailing slashes aside, it ends in ".gb" or
/// ".gbc" after a file name that does not begin with that dot.
pub open spec fn rom_name(p: Seq<char>) -> bool {
    let n = trim_slashes(p);
    let l = n.len();
    ||| (l >= 4 && n[l - 3] == '.' && n[l - 2] == 'g' && n[l - 1] == 'b' && n[l - 4] != '/')
    ||| (l >= 5 && n[l - 4] == '.' && n[l - 3] == 'g' && n[l - 2] == 'b' && n[l - 1] == 'c' && n[l - 5]
        != '/')
}

/// Entry `i` opens and is named like a Game Boy ROM.
pub open spec fn entry_is_rom(archive: Seq<u8>, i: nat) -> bool {
    zip_entry_name(archive, i) matches Some(Some(n)) && rom_name(n)
}

fn is_rom_name(s: &String) -> (r: bool)
    ensures
        r == rom_name(s@),
{
    let t = s.as_str();
    let mut l = t.unicode_len();
    assert(t@.subrange(0, l as int) =~= t@);
    while l > 0 && t.get_char(l - 1) == '/'
        invariant
            l <= t@.len(),
            trim_slashes(t@) == trim_slashes(t@.subrange(0, l as int)),
        decreases l,
    {
        assert(t@.subrange(0, l as int).drop_last() =~= t@.subrange(0, l - 1));
        l = l - 1;
    }
    proof {
        assert(trim_slashes(t@.subrange(0, l as int)) == t@.subrange(0, l as int));
    }
    if l >= 4 && t.get_char(l - 3) == '.' && t.get_char(l - 2) == 'g' && t.get_char(l - 1) == 'b'
        && t.get_char(l - 4) != '/' {
        return true;
    }
    l >= 5 && t.get_char(l - 4) == '.' && t.get_char(l - 3) == 'g' && t.get_char(l - 2) == 'b' && t.get_char(
        l - 1,
    ) == 'c' && t.get_char(l - 5) != '/'
}

/// The cartridge image in a zip archive: the contents of the first entry named like a
/// Game Boy ROM. Every entry must open; otherwise, or when that entry cannot be read, the
/// archive is refused.
pub fn rom_image_from_archive(archive: &[u8]) -> (r: Result<Vec<u8>, LoadError>)
    ensures
        zip_entry_count(archive@) is None ==> r == Err::<Vec<u8>, LoadError>(LoadError::Archive),
        zip_entry_count(archive@) matches Some(n) ==> {
            let all_open = forall|i: nat| i < n ==> (#[trigger] zip_entry_name(archive@, i)) is Some;
            let some_rom = exists|i: nat| i < n && #[trigger] entry_is_rom(archive@, i);
            &&& !all_open ==> r == Err::<Vec<u8>, LoadError>(LoadError::Archive)
            &&& all_open && !some_rom ==> r == Err::<Vec<u8>, LoadError>(LoadError::NoGbFile)
            &&& all_open ==> forall|f: nat|
                f < n && #[trigger] entry_is_rom(archive@, f) && (forall|j: nat|
                    j < f ==> !#[trigger] entry_is_rom(archive@, j)) ==> match zip_entry_data(archive@, f) {
                    Some(d) => r is Ok && r->Ok_0@ == d,
                    None => r == Err::<Vec<u8>, LoadError>(LoadError::Archive),
                }
        },
{
    let n = match archive_len(archive) {
        Some(n) => n,
        None => {
            return Err(LoadError::Archive);
        },
    };
    let mut found: Option<usize> = None;
    let mut i: usize = 0;
    while i < n
        invariant
            zip_entry_count(archive@) == Some(n as nat),
            i <= n,
            forall|k: nat| k < i ==> (#[trigger] zip_entry_name(archive@, k)) is Some,
            match found {
                Some(f) => f < i && entry_is_rom(archive@, f as nat) && forall|j: nat|
                    j < f ==> !#[trigger] entry_is_rom(archive@, j),
                None => forall|j: nat| j < i ==> !#[trigger] entry_is_rom(archive@, j),
            },
        decreases n - i,
    {
        let name = archive_entry_name(archive, i);
        match name {
            None => {
                assert(zip_entry_name(archive@, i as nat) is None);
                return Err(LoadError::Archive);
            },
            Some(o) => {
                if found.is_none() {
                    match &o {
                        Some(s) => {
                            if is_rom_name(s) {
                                found = Some(i);
                            }
                        },
                        None => {},
                    }
                }
            },
        }
        i = i + 1;
    }
    match found {
        None => Err(LoadError::NoGbFile),
        Some(f) => {
            proof {
                assert(entry_is_rom(archive@, f as nat));
            }
            match archive_entry(archive, f) {
                Some(d) => Ok(d),
                None => Err(LoadError::Archive),
            }
        },
    }
}

} // verus!
