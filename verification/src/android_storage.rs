//! Progress files kept in a public Android folder: which paths name a save,
//! how a save is opened, read, written and sized, and what a folder listing
//! holds. The folder itself is reached through the platform by the caller.
use vstd::prelude::*;
use crate::text::{push_char, push_str, string_of, str_eq, index_of, lemma_index_of, find_char, segment_is};

verus! {

/// Why a public save operation was refused.
#[derive(Clone, Copy, Debug, PartialEq, Eq, Structural)]
pub enum StorageError {
    NotAbsolute,
    InvalidName,
    InvalidPath,
    NotFound,
    ReadOnly,
    TooLarge,
    InvalidSeek,
    RecursiveDeletion,
}

impl StorageError {
    /// The message shown for this error.
    pub fn message(&self) -> (r: String)
        ensures
            r@ == match *self {
                StorageError::NotAbsolute => "Save path must be absolute"@,
                StorageError::InvalidName => "Invalid save filename"@,
                StorageError::InvalidPath => "Invalid save path"@,
                StorageError::NotFound => "Save does not exist"@,
                StorageError::ReadOnly => "Read-only save"@,
                StorageError::TooLarge => "Save exceeds size limit"@,
                StorageError::InvalidSeek => "invalid seek to a negative or overflowing position"@,
                StorageError::RecursiveDeletion => "Recursive deletion of public saves is disabled"@,
            },
    {
        match self {
            StorageError::NotAbsolute => string_of("Save path must be absolute"),
            StorageError::InvalidName => string_of("Invalid save filename"),
            StorageError::InvalidPath => string_of("Invalid save path"),
            StorageError::NotFound => string_of("Save does not exist"),
            StorageError::ReadOnly => string_of("Read-only save"),
            StorageError::TooLarge => string_of("Save exceeds size limit"),
            StorageError::InvalidSeek => string_of("invalid seek to a negative or overflowing position"),
            StorageError::RecursiveDeletion => string_of("Recursive deletion of public saves is disabled"),
        }
    }
}

/// One component of a path, as the platform splits it.
#[derive(Clone, Debug, PartialEq, Eq)]
pub enum PathComponent {
    Prefix,
    RootDir,
    CurDir,
    ParentDir,
    Normal(String),
    /// A normal component that is not valid Unicode.
    NotUnicode,
}

/// The prefix reserved for the game's own bookkeeping files.
pub open spec fn reserved_prefix() -> Seq<char> {
    seq!['.', 'c', 'a', 'v', 'e', 's', 't', 'o', 'r', 'y', '-']
}

/// A save file name: none of backslash, line feed, carriage return or NUL,
/// and not starting with the reserved prefix.
pub open spec fn name_allowed(name: Seq<char>) -> bool {
    &&& !name.contains('\\')
    &&& !name.contains('\n')
    &&& !name.contains('\r')
    &&& !name.contains('\0')
    &&& !(name.len() >= 11 && name.take(11) == reserved_prefix())
}

/// What is wrong with a component after the root, if anything.
pub open spec fn part_error(p: PathComponent) -> Option<StorageError> {
    match p {
        PathComponent::Normal(s) => if name_allowed(s@) {
            None
        } else {
            Some(StorageError::InvalidName)
        },
        PathComponent::NotUnicode => Some(StorageError::InvalidName),
        _ => Some(StorageError::InvalidPath),
    }
}

/// `k` is the first component of `parts` that is wrong.
pub open spec fn first_bad(parts: Seq<PathComponent>, k: int) -> bool {
    &&& 0 <= k < parts.len()
    &&& part_error(parts[k]) is Some
    &&& forall|j: int| 0 <= j < k ==> part_error(#[trigger] parts[j]) is None
}

/// The names of the components.
pub open spec fn names_of(parts: Seq<PathComponent>) -> Seq<Seq<char>> {
    Seq::new(
        parts.len(),
        |i: int|
            match parts[i] {
                PathComponent::Normal(s) => s@,
                _ => Seq::empty(),
            },
    )
}

/// `names` joined by slashes.
pub open spec fn joined(names: Seq<Seq<char>>) -> Seq<char>
    decreases names.len(),
{
    if names.len() == 0 {
        Seq::empty()
    } else if names.len() == 1 {
        names[0]
    } else {
        joined(names.drop_last()).push('/') + names.last()
    }
}

/// The save name of an absolute path: its names joined by slashes; a path
/// that does not start at the root, or the first component that is not an
/// allowed name, is refused.
pub open spec fn path_result(parts: Seq<PathComponent>) -> Result<Seq<char>, StorageError> {
    if parts.len() == 0 || !(parts[0] is RootDir) {
        Err(StorageError::NotAbsolute)
    } else if exists|k: int| first_bad(parts.skip(1), k) {
        let k = choose|k: int| first_bad(parts.skip(1), k);
        Err(part_error(parts.skip(1)[k]).unwrap())
    } else {
        Ok(joined(names_of(parts.skip(1))))
    }
}

fn contains_char(s: &str, c: char) -> (r: bool)
    ensures
        r == s@.contains(c),
{
    let n = s.unicode_len();
    let k = find_char(s, c, 0);
    proof {
        assert(s@.skip(0) =~= s@);
        lemma_index_of(s@, c);
        if s@.contains(c) {
            let j = choose|j: int| 0 <= j < s@.len() && s@[j] == c;
            assert(!(j < index_of(s@, c)));
        }
    }
    k < n
}

/// Whether `name` may name a save.
pub fn allowed_name(name: &str) -> (r: bool)
    ensures
        r == name_allowed(name@),
{
    if contains_char(name, '\\') || contains_char(name, '\n') || contains_char(name, '\r') || contains_char(
        name,
        '\0',
    ) {
        return false;
    }
    if name.unicode_len() >= 11 {
        let reserved = segment_is(name, 0, 11, ".cavestory-");
        proof {
            reveal_strlit(".cavestory-");
            assert(".cavestory-"@ =~= reserved_prefix());
            assert(name@.subrange(0, 11) =~= name@.take(11));
        }
        return !reserved;
    }
    true
}

/// The save name of the path made of `parts`.
pub fn path_name(parts: &Vec<PathComponent>) -> (r: Result<String, StorageError>)
    ensures
        match r {
            Ok(s) => path_result(parts@) == Ok::<Seq<char>, StorageError>(s@),
            Err(e) => path_result(parts@) == Err::<Seq<char>, StorageError>(e),
        },
{
    if parts.len() == 0 {
        return Err(StorageError::NotAbsolute);
    }
    match &parts[0] {
        PathComponent::RootDir => {},
        _ => return Err(StorageError::NotAbsolute),
    }
    let ghost rest = parts@.skip(1);
    let mut r = String::new();
    let mut i: usize = 1;
    while i < parts.len()
        invariant
            1 <= i <= parts@.len(),
            parts@[0] is RootDir,
            rest == parts@.skip(1),
            forall|j: int| 0 <= j < i - 1 ==> part_error(#[trigger] rest[j]) is None,
            r@ == joined(names_of(rest.take(i - 1))),
        decreases parts@.len() - i,
    {
        assert(rest[i - 1] == parts@[i as int]);
        let error = match &parts[i] {
            PathComponent::Normal(name) => {
                if allowed_name(name.as_str()) {
                    None
                } else {
                    Some(StorageError::InvalidName)
                }
            },
            PathComponent::NotUnicode => Some(StorageError::InvalidName),
            _ => Some(StorageError::InvalidPath),
        };
        assert(error == part_error(rest[i - 1]));
        if let Some(e) = error {
            proof {
                assert(first_bad(rest, i - 1));
                let k = choose|k: int| first_bad(rest, k);
                if k < i - 1 {
                    assert(part_error(rest[k]) is None);
                } else if k > i - 1 {
                    assert(part_error(rest[i - 1]) is None);
                }
            }
            return Err(e);
        }
        let ghost before = r@;
        if i > 1 {
            push_char(&mut r, '/');
        }
        match &parts[i] {
            PathComponent::Normal(name) => push_str(&mut r, name.as_str()),
            _ => {},
        }
        proof {
            let names = names_of(rest.take(i as int));
            assert(names.drop_last() =~= names_of(rest.take(i - 1)));
        }
        i = i + 1;
    }
    proof {
        assert(rest.take(i - 1) =~= rest);
        assert forall|k: int| !first_bad(rest, k) by {
            if 0 <= k < rest.len() {
                assert(part_error(rest[k]) is None);
            }
        }
    }
    Ok(r)
}

/// Where a path's file lives: the settings stay in the private folder,
/// everything else is a public save of the given name.
#[derive(Clone, Debug, PartialEq, Eq)]
pub enum Route {
    Private,
    Public(String),
}

/// The settings file's name.
pub open spec fn settings_name() -> Seq<char> {
    seq!['s', 'e', 't', 't', 'i', 'n', 'g', 's', '.', 'j', 's', 'o', 'n']
}

/// Where the file at the path made of `parts` lives.
pub fn route(parts: &Vec<PathComponent>) -> (r: Result<Route, StorageError>)
    ensures
        match path_result(parts@) {
            Ok(n) => if n == settings_name() {
                r == Ok::<Route, StorageError>(Route::Private)
            } else {
                r matches Ok(Route::Public(s)) && s@ == n
            },
            Err(e) => r == Err::<Route, StorageError>(e),
        },
{
    let name = match path_name(parts) {
        Ok(name) => name,
        Err(e) => return Err(e),
    };
    proof {
        reveal_strlit("settings.json");
        assert("settings.json"@ =~= settings_name());
    }
    if str_eq(name.as_str(), "settings.json") {
        Ok(Route::Private)
    } else {
        Ok(Route::Public(name))
    }
}

/// How a save is opened.
#[derive(Clone, Copy, Debug, PartialEq, Eq, Structural)]
pub struct OpenOptions {
    pub read: bool,
    pub write: bool,
    pub create: bool,
    pub append: bool,
    pub truncate: bool,
}

/// An open public save: its bytes held in memory, written back by the caller
/// when it is flushed while `dirty`.
#[derive(Clone, Debug, PartialEq, Eq)]
pub struct SaveFile {
    pub path: String,
    pub data: Vec<u8>,
    pub position: u64,
    pub writable: bool,
    pub append: bool,
    pub dirty: bool,
}

/// The largest a save may grow, in bytes.
pub const SIZE_LIMIT: u64 = 33554432;

/// Opens the save `path` whose stored bytes are `previous` (none if it does
/// not exist yet): a missing save is created only when asked; truncation or
/// creation starts empty and, for a writer, marks the save to be written back.
pub fn open_save(path: String, previous: Option<Vec<u8>>, options: OpenOptions) -> (r: Result<SaveFile, StorageError>)
    ensures
        previous is None && !options.create ==> r == Err::<SaveFile, StorageError>(StorageError::NotFound),
        !(previous is None && !options.create) ==> (r matches Ok(f) && {
            &&& f.path@ == path@
            &&& f.data@ == if options.truncate || previous is None {
                Seq::<u8>::empty()
            } else {
                previous.unwrap()@
            }
            &&& f.position == if options.append { f.data@.len() } else { 0 }
            &&& f.writable == (options.write || options.append)
            &&& f.append == options.append
            &&& f.dirty == (options.write && (options.truncate || previous is None))
        }),
{
    if previous.is_none() && !options.create {
        return Err(StorageError::NotFound);
    }
    let dirty = options.write && (options.truncate || previous.is_none());
    let data: Vec<u8> = if options.truncate {
        Vec::new()
    } else {
        match previous {
            Some(bytes) => bytes,
            None => Vec::new(),
        }
    };
    let position: u64 = if options.append { data.len() as u64 } else { 0 };
    Ok(SaveFile { path, data, position, writable: options.write || options.append, append: options.append, dirty })
}

/// `data` with `bytes` written from `pos` on: overwritten where it reaches,
/// grown where it ends, and zero-filled between its end and `pos`.
pub open spec fn written(data: Seq<u8>, pos: int, bytes: Seq<u8>) -> Seq<u8> {
    let end = pos + bytes.len();
    let len = if end > data.len() { end } else { data.len() as int };
    Seq::new(
        len as nat,
        |i: int|
            if pos <= i < end {
                bytes[i - pos]
            } else if i < data.len() {
                data[i]
            } else {
                0u8
            },
    )
}

/// Where a write to `f` starts: the end when appending, else the position.
pub open spec fn write_start(f: SaveFile) -> int {
    if f.append {
        f.data@.len() as int
    } else {
        f.position as int
    }
}

/// Where a seek lands.
#[derive(Clone, Copy, Debug, PartialEq, Eq, Structural)]
pub enum SeekFrom {
    Start(u64),
    End(i64),
    Current(i64),
}

/// The position a seek asks for, which must lie between zero and the
/// largest `u64`.
pub open spec fn seek_target(f: SaveFile, from: SeekFrom) -> int {
    match from {
        SeekFrom::Start(n) => n as int,
        SeekFrom::End(n) => f.data@.len() + n,
        SeekFrom::Current(n) => f.position + n,
    }
}

/// The same file apart from its data, position and dirty mark.
pub open spec fn same_file(a: SaveFile, b: SaveFile) -> bool {
    &&& a.path@ == b.path@
    &&& a.writable == b.writable
    &&& a.append == b.append
}

impl SaveFile {
    /// Writes `bytes` at the write position and moves past them; a read-only
    /// save, or one that would grow past the size limit, refuses.
    pub fn write(&mut self, bytes: &[u8]) -> (r: Result<usize, StorageError>)
        ensures
            same_file(*old(self), *final(self)),
            !old(self).writable ==> r == Err::<usize, StorageError>(StorageError::ReadOnly) && final(self).data@
                == old(self).data@ && final(self).position == old(self).position && final(self).dirty
                == old(self).dirty,
            old(self).writable && write_start(*old(self)) + bytes@.len() > SIZE_LIMIT ==> r == Err::<
                usize,
                StorageError,
            >(StorageError::TooLarge) && final(self).data@ == old(self).data@ && final(self).position
                == write_start(*old(self)) && final(self).dirty == old(self).dirty,
            old(self).writable && write_start(*old(self)) + bytes@.len() <= SIZE_LIMIT ==> r == Ok::<
                usize,
                StorageError,
            >(bytes@.len() as usize) && final(self).data@ == written(
                old(self).data@,
                write_start(*old(self)),
                bytes@,
            ) && final(self).position == write_start(*old(self)) + bytes@.len() && final(self).dirty,
    {
        if !self.writable {
            return Err(StorageError::ReadOnly);
        }
        if self.append {
            self.position = self.data.len() as u64;
        }
        let n = bytes.len();
        if n as u64 > SIZE_LIMIT || self.position > SIZE_LIMIT - n as u64 {
            return Err(StorageError::TooLarge);
        }
        self.dirty = true;
        let pos = self.position as usize;
        let ghost start = self.data@;
        while self.data.len() < pos
            invariant
                start.len() <= self.data@.len(),
                self.data@.len() > start.len() ==> self.data@.len() <= pos,
                forall|i: int| 0 <= i < start.len() ==> self.data@[i] == start[i],
                forall|i: int| start.len() <= i < self.data@.len() ==> self.data@[i] == 0u8,
                same_file(*old(self), *self),
                self.position == pos,
                self.dirty,
            decreases pos - self.data@.len(),
        {
            self.data.push(0u8);
        }
        assert(self.data@ =~= written(start, pos as int, bytes@.take(0)));
        let mut i: usize = 0;
        while i < n
            invariant
                n == bytes@.len(),
                pos + n <= SIZE_LIMIT,
                i <= n,
                self.data@ =~= written(start, pos as int, bytes@.take(i as int)),
                same_file(*old(self), *self),
                self.position == pos,
                self.dirty,
            decreases n - i,
        {
            if pos + i < self.data.len() {
                self.data.set(pos + i, bytes[i]);
            } else {
                self.data.push(bytes[i]);
            }
            i = i + 1;
        }
        assert(bytes@.take(n as int) =~= bytes@);
        self.position = (pos + n) as u64;
        Ok(n)
    }

    /// Reads up to `max` bytes from the position on, and moves past them.
    pub fn read(&mut self, max: usize) -> (r: Vec<u8>)
        ensures
            same_file(*old(self), *final(self)),
            final(self).data@ == old(self).data@,
            final(self).dirty == old(self).dirty,
            ({
                let p = if old(self).position < old(self).data@.len() {
                    old(self).position as int
                } else {
                    old(self).data@.len() as int
                };
                let n = if max < old(self).data@.len() - p { max as int } else { old(self).data@.len() - p };
                &&& r@ == old(self).data@.subrange(p, p + n)
                &&& final(self).position == old(self).position + n
            }),
    {
        let len = self.data.len();
        let p: usize = if self.position < len as u64 { self.position as usize } else { len };
        let n: usize = if max < len - p { max } else { len - p };
        let mut r: Vec<u8> = Vec::new();
        let mut i: usize = 0;
        while i < n
            invariant
                p + n <= len == self.data@.len(),
                i <= n,
                r@ =~= self.data@.subrange(p as int, (p + i) as int),
            decreases n - i,
        {
            r.push(self.data[p + i]);
            i = i + 1;
        }
        assert(self.position + n <= u64::MAX) by {
            assert(n <= len);
        }
        self.position = self.position + n as u64;
        r
    }

    /// Moves the position as asked; a target below zero or past the largest
    /// `u64` is refused and leaves the position.
    pub fn seek(&mut self, from: SeekFrom) -> (r: Result<u64, StorageError>)
        ensures
            same_file(*old(self), *final(self)),
            final(self).data@ == old(self).data@,
            final(self).dirty == old(self).dirty,
            0 <= seek_target(*old(self), from) <= u64::MAX ==> r == Ok::<u64, StorageError>(
                seek_target(*old(self), from) as u64,
            ) && final(self).position == seek_target(*old(self), from),
            !(0 <= seek_target(*old(self), from) <= u64::MAX) ==> r == Err::<u64, StorageError>(
                StorageError::InvalidSeek,
            ) && final(self).position == old(self).position,
    {
        let (base, offset): (u64, i64) = match from {
            SeekFrom::Start(n) => {
                self.position = n;
                return Ok(n);
            },
            SeekFrom::End(n) => (self.data.len() as u64, n),
            SeekFrom::Current(n) => (self.position, n),
        };
        let target: i128 = base as i128 + offset as i128;
        if target < 0 || target > u64::MAX as i128 {
            return Err(StorageError::InvalidSeek);
        }
        self.position = target as u64;
        Ok(target as u64)
    }
}

/// What the platform says of a save: `-2` for a folder, a length for a file,
/// `-1` for nothing there.
#[derive(Clone, Copy, Debug, PartialEq, Eq, Structural)]
pub struct SaveInfo {
    pub stat: i64,
}

impl SaveInfo {
    /// What the platform's answer `stat` says; nothing there is refused.
    pub fn from_stat(stat: i64) -> (r: Result<SaveInfo, StorageError>)
        ensures
            stat == -1 ==> r == Err::<SaveInfo, StorageError>(StorageError::NotFound),
            stat != -1 ==> r == Ok::<SaveInfo, StorageError>(SaveInfo { stat }),
    {
        if stat == -1 {
            Err(StorageError::NotFound)
        } else {
            Ok(SaveInfo { stat })
        }
    }

    pub fn is_dir(&self) -> (r: bool)
        ensures
            r == (self.stat == -2),
    {
        self.stat == -2
    }

    pub fn is_file(&self) -> (r: bool)
        ensures
            r == (self.stat >= 0),
    {
        self.stat >= 0
    }

    /// The length, zero for what is not a file.
    pub fn len(&self) -> (r: u64)
        ensures
            r == if self.stat > 0 { self.stat as int } else { 0 },
    {
        if self.stat > 0 {
            self.stat as u64
        } else {
            0
        }
    }
}

/// The entries of a folder listing, one per line (a line ends at a line
/// feed, with a carriage return before it dropped), the settings file left out.
pub open spec fn entries_of(listing: Seq<char>) -> Seq<Seq<char>>
    decreases listing.len(),
{
    if listing.len() == 0 {
        Seq::empty()
    } else {
        let k = index_of(listing, '\n') as int;
        proof {
            lemma_index_of(listing, '\n');
        }
        let line = if k < listing.len() && k > 0 && listing[k - 1] == '\r' {
            listing.take(k - 1)
        } else {
            listing.take(k)
        };
        let rest = if k < listing.len() { listing.skip(k + 1) } else { Seq::empty() };
        if line == settings_name() {
            entries_of(rest)
        } else {
            seq![line] + entries_of(rest)
        }
    }
}

fn substring(s: &str, from: usize, to: usize) -> (r: String)
    requires
        from <= to <= s@.len(),
    ensures
        r@ == s@.subrange(from as int, to as int),
{
    let mut r = String::new();
    let mut i = from;
    while i < to
        invariant
            from <= i <= to <= s@.len(),
            r@ == s@.subrange(from as int, i as int),
        decreases to - i,
    {
        let c = s.get_char(i);
        push_char(&mut r, c);
        assert(s@.subrange(from as int, i as int).push(c) =~= s@.subrange(from as int, i + 1));
        i = i + 1;
    }
    r
}

/// The entries of a folder listing of public saves.
pub fn listing_entries(listing: &str) -> (r: Vec<String>)
    ensures
        r@.map_values(|e: String| e@) == entries_of(listing@),
{
    let n = listing.unicode_len();
    let mut r: Vec<String> = Vec::new();
    let mut start: usize = 0;
    proof {
        reveal_strlit("settings.json");
        assert("settings.json"@ =~= settings_name());
        assert(listing@.skip(0) =~= listing@);
        assert(r@.map_values(|e: String| e@) + entries_of(listing@) =~= entries_of(listing@));
    }
    while start < n
        invariant
            n == listing@.len(),
            start <= n,
            entries_of(listing@) == r@.map_values(|e: String| e@) + entries_of(listing@.skip(start as int)),
            "settings.json"@ == settings_name(),
        decreases n - start,
    {
        let ghost rest = listing@.skip(start as int);
        let k = find_char(listing, '\n', start);
        proof {
            lemma_index_of(rest, '\n');
        }
        let end = if k < n && k > start && listing.get_char(k - 1) == '\r' { k - 1 } else { k };
        let line = substring(listing, start, end);
        proof {
            assert(line@ =~= if (k - start) < rest.len() && (k - start) > 0 && rest[k - start - 1] == '\r' {
                rest.take(k - start - 1)
            } else {
                rest.take(k - start)
            });
        }
        let next = if k < n { k + 1 } else { n };
        proof {
            assert((if (k - start) < rest.len() { rest.skip(k - start + 1) } else { Seq::<char>::empty() })
                =~= listing@.skip(next as int));
        }
        let ghost before = r@.map_values(|e: String| e@);
        if !str_eq(line.as_str(), "settings.json") {
            r.push(line);
            proof {
                assert(r@.map_values(|e: String| e@) =~= before.push(line@));
                assert(before.push(line@) + entries_of(listing@.skip(next as int)) =~= before + (seq![line@]
                    + entries_of(listing@.skip(next as int))));
            }
        }
        start = next;
    }
    proof {
        assert(listing@.skip(n as int) =~= Seq::<char>::empty());
        assert(r@.map_values(|e: String| e@) + Seq::<Seq<char>>::empty() =~= r@.map_values(|e: String| e@));
    }
    r
}

/// Public saves beside the private folder that keeps the settings.
#[derive(Clone, Debug, PartialEq, Eq)]
pub struct PublicSaves {
    pub private_root: String,
}

impl PublicSaves {
    pub fn new(private_root: String) -> (r: PublicSaves)
        ensures
            r.private_root@ == private_root@,
    {
        PublicSaves { private_root }
    }

    /// Deleting a folder of public saves with its contents is always refused.
    pub fn rmrf(&self) -> (r: Result<(), StorageError>)
        ensures
            r == Err::<(), StorageError>(StorageError::RecursiveDeletion),
    {
        Err(StorageError::RecursiveDeletion)
    }
}

/// What a write puts in a save is read back from where it was written, and
/// the bytes before it and after it stay as they were.
pub proof fn law_written_bytes_read_back(data: Seq<u8>, pos: int, bytes: Seq<u8>)
    requires
        0 <= pos,
    ensures
        written(data, pos, bytes).subrange(pos, pos + bytes.len()) == bytes,
        forall|i: int| 0 <= i < data.len() && !(pos <= i < pos + bytes.len()) ==> #[trigger] written(data, pos, bytes)[i] == data[i],
{
    assert(written(data, pos, bytes).subrange(pos, pos + bytes.len()) =~= bytes);
}

proof fn lemma_joined_avoids(names: Seq<Seq<char>>, c: char)
    requires
        c != '/',
        forall|i: int| 0 <= i < names.len() ==> !(#[trigger] names[i]).contains(c),
    ensures
        !joined(names).contains(c),
    decreases names.len(),
{
    if names.len() > 1 {
        let front = names.drop_last();
        lemma_joined_avoids(front, c);
        let j = joined(front).push('/') + names.last();
        if j.contains(c) {
            let k = choose|k: int| 0 <= k < j.len() && j[k] == c;
            if k < joined(front).len() {
                assert(joined(front)[k] == c);
            } else if k > joined(front).len() {
                assert(names.last()[k - joined(front).len() - 1] == c);
            }
        }
    } else if names.len() == 1 {
        assert(!names[0].contains(c));
    }
}

/// A save name that a path yields holds no line break, NUL or backslash, so
/// it stands on one line of a folder listing.
pub proof fn law_save_names_are_single_lines(parts: Seq<PathComponent>)
    requires
        path_result(parts) is Ok,
    ensures
        !path_result(parts)->Ok_0.contains('\n'),
        !path_result(parts)->Ok_0.contains('\r'),
        !path_result(parts)->Ok_0.contains('\0'),
        !path_result(parts)->Ok_0.contains('\\'),
{
    let rest = parts.skip(1);
    let names = names_of(rest);
    assert forall|i: int| 0 <= i < names.len() implies name_allowed(#[trigger] names[i]) by {
        if part_error(rest[i]) is Some {
            lemma_first_bad_exists(rest, i);
        }
    }
    lemma_joined_avoids(names, '\n');
    lemma_joined_avoids(names, '\r');
    lemma_joined_avoids(names, '\0');
    lemma_joined_avoids(names, '\\');
}

/// Where some component is wrong, a first one is.
proof fn lemma_first_bad_exists(parts: Seq<PathComponent>, i: int)
    requires
        0 <= i < parts.len(),
        part_error(parts[i]) is Some,
    ensures
        exists|k: int| first_bad(parts, k),
    decreases i,
{
    if forall|j: int| 0 <= j < i ==> part_error(#[trigger] parts[j]) is None {
        assert(first_bad(parts, i));
    } else {
        let j = choose|j: int| 0 <= j < i && part_error(#[trigger] parts[j]) is Some;
        lemma_first_bad_exists(parts, j);
    }
}

} // verus!
