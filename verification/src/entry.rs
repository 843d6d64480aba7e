//! The record of one directory entry and the rules that derive it from the
//! entry's name and metadata.

use vstd::prelude::*;

verus! {

/// Permission bit: the owner may execute.
pub const OWNER_EXECUTE: u32 = 0o100;

/// Permission bit: the group may execute.
pub const GROUP_EXECUTE: u32 = 0o010;

/// Permission bit: others may execute.
pub const OTHER_EXECUTE: u32 = 0o001;

/// The three execute bits together.
pub const ANY_EXECUTE: u32 = 0o111;

/// When an entry was last modified, as far as the platform could tell.
#[derive(Clone, Copy, Debug, PartialEq, Eq)]
pub enum ModifiedTime {
    /// The platform supplied no modification time.
    Unavailable,
    /// The modification time lies before the epoch.
    BeforeEpoch,
    /// The modification time, in whole seconds since the epoch.
    SinceEpoch { secs: u64 },
}

/// The metadata of one entry, as fetched by the caller.
#[derive(Clone, Copy, Debug, PartialEq, Eq)]
pub struct Metadata {
    /// Whether the entry resolves to a directory.
    pub is_dir: bool,
    /// The byte length that the platform reports.
    pub len: u64,
    /// The time of the last modification.
    pub modified: ModifiedTime,
    /// The permission bits, on platforms that have them.
    pub mode: Option<u32>,
}

/// What a record says of one entry, as plain mathematical values.
pub struct Record {
    /// The final path component.
    pub name: Seq<char>,
    /// Whether the entry resolves to a directory.
    pub is_dir: bool,
    /// The byte length.
    pub size: u64,
    /// Seconds since the epoch, 0 if unknown.
    pub mtime: i64,
    /// Whether an execute bit is set.
    pub executable: bool,
    /// Whether the name begins with a dot.
    pub hidden: bool,
}

/// True when the name is one of the two reserved names, `.` and `..`.
pub open spec fn is_reserved_name(name: Seq<char>) -> bool {
    name == seq!['.'] || name == seq!['.', '.']
}

/// True when the name begins with a dot.
pub open spec fn is_hidden_name(name: Seq<char>) -> bool {
    name.len() > 0 && name[0] == '.'
}

/// True when at least one of the three execute bits is set in `mode`.
pub open spec fn has_execute_bit(mode: u32) -> bool {
    mode & OWNER_EXECUTE != 0 || mode & GROUP_EXECUTE != 0 || mode & OTHER_EXECUTE != 0
}

/// Executability as derived from the permission bits, where the platform has
/// them; `false` where it has none.
pub open spec fn executable_of(mode: Option<u32>) -> bool {
    match mode {
        Some(bits) => has_execute_bit(bits),
        None => false,
    }
}

/// A count of seconds read as a signed 64-bit number in two's complement: counts
/// up to `i64::MAX` keep their value, larger ones wrap to negative values.
pub open spec fn seconds_to_mtime(secs: u64) -> i64 {
    if secs <= i64::MAX {
        secs as i64
    } else {
        (secs - 0x1_0000_0000_0000_0000) as i64
    }
}

/// The modification time of a record: seconds since the epoch, and 0 where the
/// time is unavailable or lies before the epoch.
pub open spec fn mtime_of(modified: ModifiedTime) -> i64 {
    match modified {
        ModifiedTime::SinceEpoch { secs } => seconds_to_mtime(secs),
        ModifiedTime::Unavailable => 0,
        ModifiedTime::BeforeEpoch => 0,
    }
}

/// The record that an entry with this name and metadata gives.
pub open spec fn record_of(name: Seq<char>, metadata: Metadata) -> Record {
    Record {
        name,
        is_dir: metadata.is_dir,
        size: metadata.len,
        mtime: mtime_of(metadata.modified),
        executable: executable_of(metadata.mode),
        hidden: is_hidden_name(name),
    }
}

/// The outcome of reading one entry: no record for a reserved name, else the
/// record derived from the metadata.
pub open spec fn read_entry_spec(name: Seq<char>, metadata: Metadata) -> Option<Record> {
    if is_reserved_name(name) {
        None
    } else {
        Some(record_of(name, metadata))
    }
}

impl Record {
    /// What holds of every record: its name is not reserved, and it is marked
    /// hidden exactly when its name begins with a dot.
    pub open spec fn well_formed(self) -> bool {
        &&& !is_reserved_name(self.name)
        &&& self.hidden == is_hidden_name(self.name)
    }
}

/// The metadata summary of one accepted directory entry.
#[derive(Debug, PartialEq, Eq)]
pub struct DirEntry {
    name: String,
    is_dir: bool,
    size: u64,
    mtime: i64,
    executable: bool,
    hidden: bool,
}

impl View for DirEntry {
    type V = Record;

    closed spec fn view(&self) -> Record {
        Record {
            name: self.name@,
            is_dir: self.is_dir,
            size: self.size,
            mtime: self.mtime,
            executable: self.executable,
            hidden: self.hidden,
        }
    }
}

impl DeepView for DirEntry {
    type V = Record;

    open spec fn deep_view(&self) -> Record {
        self@
    }
}

impl DirEntry {
    /// Every record is well formed.
    #[verifier::type_invariant]
    pub open spec fn valid(&self) -> bool {
        self@.well_formed()
    }

    /// The final path component; never `.` or `..`.
    pub fn name(&self) -> (name: &str)
        ensures
            name@ == self@.name,
            !is_reserved_name(name@),
    {
        proof {
            use_type_invariant(self);
        }
        self.name.as_str()
    }

    /// Whether the entry resolves to a directory.
    pub fn is_dir(&self) -> (is_dir: bool)
        ensures
            is_dir == self@.is_dir,
    {
        self.is_dir
    }

    /// The byte length as the metadata gave it.
    pub fn size(&self) -> (size: u64)
        ensures
            size == self@.size,
    {
        self.size
    }

    /// Seconds since the epoch; 0 if the time was unavailable.
    pub fn mtime(&self) -> (mtime: i64)
        ensures
            mtime == self@.mtime,
    {
        self.mtime
    }

    /// Whether any execute bit is set.
    pub fn executable(&self) -> (executable: bool)
        ensures
            executable == self@.executable,
    {
        self.executable
    }

    /// Whether the name begins with a dot.
    pub fn hidden(&self) -> (hidden: bool)
        ensures
            hidden == self@.hidden,
            hidden == is_hidden_name(self@.name),
    {
        proof {
            use_type_invariant(self);
        }
        self.hidden
    }
}

impl Clone for DirEntry {
    fn clone(&self) -> (copy: Self)
        ensures
            copy@ == self@,
    {
        proof {
            use_type_invariant(self);
        }
        DirEntry {
            name: self.name.clone(),
            is_dir: self.is_dir,
            size: self.size,
            mtime: self.mtime,
            executable: self.executable,
            hidden: self.hidden,
        }
    }
}

/// Decides whether `name` begins with a dot.
pub fn is_hidden(name: &str) -> (hidden: bool)
    ensures
        hidden == is_hidden_name(name@),
{
    !name.is_empty() && name.get_char(0) == '.'
}

/// Decides whether `name` is `.` or `..`.
pub fn is_reserved(name: &str) -> (reserved: bool)
    ensures
        reserved == is_reserved_name(name@),
{
    if !is_hidden(name) {
        return false;
    }
    let len: usize = name.unicode_len();
    let reserved = len == 1 || (len == 2 && name.get_char(1) == '.');
    assert(reserved ==> name@ =~= seq!['.'] || name@ =~= seq!['.', '.']);
    reserved
}

/// Decides executability from the permission bits, if the platform has any.
pub fn is_executable(mode: Option<u32>) -> (executable: bool)
    ensures
        executable == executable_of(mode),
{
    match mode {
        Some(bits) => {
            assert((bits & ANY_EXECUTE != 0) == has_execute_bit(bits)) by (bit_vector);
            bits & ANY_EXECUTE != 0
        },
        None => false,
    }
}

/// Computes the modification time of a record.
pub fn mtime_seconds(modified: ModifiedTime) -> (mtime: i64)
    ensures
        mtime == mtime_of(modified),
{
    match modified {
        ModifiedTime::SinceEpoch { secs } => {
            assert(secs as i64 == seconds_to_mtime(secs)) by (bit_vector);
            #[verifier::truncate]
            (secs as i64)
        },
        ModifiedTime::Unavailable => 0,
        ModifiedTime::BeforeEpoch => 0,
    }
}

/// Turns one raw directory entry into its record, or into nothing where the
/// name is reserved.
pub fn read_entry(name: String, metadata: &Metadata) -> (entry: Option<DirEntry>)
    ensures
        entry.deep_view() == read_entry_spec(name@, *metadata),
{
    if is_reserved(name.as_str()) {
        return None;
    }
    let hidden: bool = is_hidden(name.as_str());
    let mtime: i64 = mtime_seconds(metadata.modified);
    let executable: bool = is_executable(metadata.mode);
    Some(DirEntry { name, is_dir: metadata.is_dir, size: metadata.len, mtime, executable, hidden })
}

} // verus!
