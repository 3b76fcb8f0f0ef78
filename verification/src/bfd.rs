//! The decisions around libbfd: the C strings handed to it, what an opened
//! object file is, how the link starts, and how libbfd's list of targets is
//! read. The calls into libbfd themselves are made by the caller.
use vstd::prelude::*;
use vstd::string::StringSliceAdditionalSpecFns;

verus! {

/// Why a libbfd call failed: it returned a null pointer.
#[derive(Debug, Clone, Copy, PartialEq, Eq)]
pub enum BFDError {
    NullPtrError,
}

/// The C characters (`c_char`, signed on this platform) of a byte string:
/// each byte reinterpreted, no terminator added.
pub open spec fn c_chars(bytes: Seq<u8>) -> Seq<i8> {
    bytes.map_values(|b: u8| b as i8)
}

/// The C characters of the UTF-8 bytes of `s`.
pub fn str_to_c_char_vec(s: &str) -> (res: Vec<i8>)
    ensures
        res@ == c_chars(s.spec_bytes()),
        res@.len() == s.spec_bytes().len(),
        forall|i: int| 0 <= i < res@.len() ==> #[trigger] res@[i] == s.spec_bytes()[i] as i8,
        forall|i: int| 0 <= i < res@.len() ==> #[trigger] (res@[i] as u8) == s.spec_bytes()[i],
{
    let bytes = s.as_bytes();
    let mut res: Vec<i8> = Vec::new();
    let n = bytes.len();
    for i in 0..n
        invariant
            n == bytes@.len(),
            bytes@ == s.spec_bytes(),
            res@ == c_chars(bytes@.take(i as int)),
    {
        res.push(bytes[i] as i8);
        assert(c_chars(bytes@.take(i as int)).push(bytes@[i as int] as i8) =~= c_chars(
            bytes@.take(i + 1),
        ));
    }
    assert(bytes@.take(n as int) =~= bytes@);
    proof {
        lemma_c_chars_keep_bytes(bytes@);
    }
    res
}

/// Law: the C characters of a byte string are its bytes, one for one and in
/// order, each reinterpreted as a signed character and so read back as the
/// same byte.
pub proof fn lemma_c_chars_keep_bytes(bytes: Seq<u8>)
    ensures
        c_chars(bytes).len() == bytes.len(),
        forall|i: int| 0 <= i < bytes.len() ==> #[trigger] c_chars(bytes)[i] == bytes[i] as i8,
        forall|i: int| 0 <= i < bytes.len() ==> #[trigger] (c_chars(bytes)[i] as u8) == bytes[i],
{
    assert forall|i: int| 0 <= i < bytes.len() implies #[trigger] (c_chars(bytes)[i] as u8)
        == bytes[i] by {
        let b = bytes[i];
        assert((b as i8) as u8 == b) by (bit_vector);
    }
}

/// The C characters of a path, given as its text.
pub fn path_to_c_char_vec(path: &str) -> (res: Vec<i8>)
    ensures
        res@ == c_chars(path.spec_bytes()),
        res@.len() == path.spec_bytes().len(),
        forall|i: int| 0 <= i < res@.len() ==> #[trigger] res@[i] == path.spec_bytes()[i] as i8,
        forall|i: int| 0 <= i < res@.len() ==> #[trigger] (res@[i] as u8) == path.spec_bytes()[i],
{
    str_to_c_char_vec(path)
}

/// Whether a file is opened for reading (`bfd_openr`) or writing
/// (`bfd_openw`).
#[derive(Debug, Clone, Copy, PartialEq, Eq)]
pub enum Direction {
    Input,
    Output,
}

/// An object file that libbfd opened: its path, the target it was opened
/// for, and whether it is read or written. Its format is set to object.
#[derive(Debug, PartialEq, Eq)]
pub struct Handle {
    pub path: String,
    pub target: String,
    pub direction: Direction,
}

impl Handle {
    /// The object file `path` opened for reading for `target`, given whether
    /// libbfd gave a descriptor (`opened`) or a null pointer.
    pub fn for_input_obj_file(path: &str, target: &str, opened: bool) -> (res: Result<Handle, BFDError>)
        ensures
            !opened <==> res == Err::<Handle, BFDError>(BFDError::NullPtrError),
            res matches Ok(h) ==> h.path@ == path@ && h.target@ == target@ && h.direction
                == Direction::Input,
    {
        if opened {
            Ok(
                Handle {
                    path: String::from_str(path),
                    target: String::from_str(target),
                    direction: Direction::Input,
                },
            )
        } else {
            Err(BFDError::NullPtrError)
        }
    }

    /// The object file `path` opened for writing for `target`, given whether
    /// libbfd gave a descriptor (`opened`) or a null pointer.
    pub fn for_output_obj_file(path: &str, target: &str, opened: bool) -> (res: Result<
        Handle,
        BFDError,
    >)
        ensures
            !opened <==> res == Err::<Handle, BFDError>(BFDError::NullPtrError),
            res matches Ok(h) ==> h.path@ == path@ && h.target@ == target@ && h.direction
                == Direction::Output,
    {
        if opened {
            Ok(
                Handle {
                    path: String::from_str(path),
                    target: String::from_str(target),
                    direction: Direction::Output,
                },
            )
        } else {
            Err(BFDError::NullPtrError)
        }
    }
}

/// A file for libbfd to open.
#[derive(Debug, PartialEq, Eq)]
pub struct OpenRequest {
    pub path: String,
    pub target: String,
    pub direction: Direction,
}

/// The files opened to produce an executable, in the order they are opened:
/// the output for writing, then the object file for reading, both for
/// `target`. Nothing else is done with them yet.
pub fn make_executable(object_path: &str, clang_rt: &str, target: &str, out_path: &str) -> (res: Vec<
    OpenRequest,
>)
    ensures
        res@.len() == 2,
        res@[0].path@ == out_path@,
        res@[0].target@ == target@,
        res@[0].direction == Direction::Output,
        res@[1].path@ == object_path@,
        res@[1].target@ == target@,
        res@[1].direction == Direction::Input,
{
    let mut res: Vec<OpenRequest> = Vec::new();
    res.push(
        OpenRequest {
            path: String::from_str(out_path),
            target: String::from_str(target),
            direction: Direction::Output,
        },
    );
    res.push(
        OpenRequest {
            path: String::from_str(object_path),
            target: String::from_str(target),
            direction: Direction::Input,
        },
    );
    res
}

/// The settings of a link that the linker chooses (the rest is libbfd's
/// default): the character that separates the entries of a search path.
#[derive(Debug, Clone, Copy, PartialEq, Eq)]
pub struct LinkInfo {
    pub path_separator: i8,
}

/// The link settings on Unix: search paths are separated by `:`.
pub fn unix_link_info() -> (res: LinkInfo)
    ensures
        res.path_separator == 58,
{
    LinkInfo { path_separator: 58 }
}

/// A link in progress.
#[derive(Debug, PartialEq, Eq)]
pub struct LinkProcess {
    pub link_info: LinkInfo,
}

impl LinkProcess {
    /// A new link with the Unix settings.
    pub fn new() -> (res: Self)
        ensures
            res.link_info.path_separator == 58,
    {
        LinkProcess { link_info: unix_link_info() }
    }

    /// Whether the symbols of `other` were added to the link, given the
    /// status (a `bfd_boolean`) that the add-symbols routine of `other`'s
    /// target returned: any status but zero is success.
    pub fn add_symbols(&self, other: &Handle, status: i32) -> (res: bool)
        ensures
            res == (status != 0),
    {
        status != 0
    }
}

/// The name of a target that libbfd found by name, or the error where it
/// found none.
pub fn get_target(found: Option<String>) -> (res: Result<String, BFDError>)
    ensures
        found is None <==> res == Err::<String, BFDError>(BFDError::NullPtrError),
        found matches Some(name) ==> res matches Ok(r) && r@ == name@,
{
    match found {
        Some(name) => Ok(name),
        None => Err(BFDError::NullPtrError),
    }
}

/// The strings of a null-terminated list of C strings: those before the
/// first null entry.
pub open spec fn strings_before_null(entries: Seq<Option<Seq<char>>>) -> Seq<Seq<char>>
    decreases entries.len(),
{
    if entries.len() == 0 {
        Seq::empty()
    } else if entries[0] is None {
        Seq::empty()
    } else {
        seq![entries[0].unwrap()] + strings_before_null(entries.drop_first())
    }
}

/// Reading a null-terminated list of C strings (such as libbfd's list of
/// targets) entry by entry: the reader says which entry to read next, and
/// takes each entry as it is read, `None` for the null entry.
pub struct CStringListReader {
    strings: Vec<String>,
    done: bool,
}

pub struct ReaderView {
    pub strings: Seq<Seq<char>>,
    pub done: bool,
}

impl View for CStringListReader {
    type V = ReaderView;

    closed spec fn view(&self) -> ReaderView {
        ReaderView {
            strings: self.strings@.map_values(|s: String| s@),
            done: self.done,
        }
    }
}

impl CStringListReader {
    /// A reader of a list; a null list is read as the empty list.
    pub fn new(list_is_null: bool) -> (res: Self)
        ensures
            res@.strings == Seq::<Seq<char>>::empty(),
            res@.done == list_is_null,
    {
        let res = CStringListReader { strings: Vec::new(), done: list_is_null };
        assert(res@.strings =~= Seq::<Seq<char>>::empty());
        res
    }

    /// The index of the entry to read next; `None` once the list has ended.
    pub fn next_index(&self) -> (res: Option<usize>)
        ensures
            self@.done <==> res is None,
            res matches Some(i) ==> i == self@.strings.len(),
    {
        if self.done {
            None
        } else {
            Some(self.strings.len())
        }
    }

    /// Takes the entry read: a string is added, a null entry ends the list.
    pub fn accept(&mut self, entry: Option<String>)
        requires
            !old(self)@.done,
        ensures
            final(self)@.done == (entry is None),
            final(self)@.strings == match entry {
                Some(s) => old(self)@.strings.push(s@),
                None => old(self)@.strings,
            },
    {
        match entry {
            Some(s) => {
                proof {
                    let v = self.strings@;
                    assert(v.push(s).map_values(|t: String| t@) =~= v.map_values(|t: String| t@).push(
                        s@,
                    ));
                }
                self.strings.push(s);
            },
            None => {
                self.done = true;
            },
        }
    }

    /// The strings read.
    pub fn into_strings(self) -> (res: Vec<String>)
        ensures
            res@.map_values(|s: String| s@) == self@.strings,
    {
        self.strings
    }
}

/// Law: reading a list entry by entry yields the strings before its first
/// null entry. Starting from a fresh reader and taking the entries in
/// order while the reader asks for them, the strings read after `k` entries
/// are those before the first null among them, and the reader has stopped
/// exactly when a null was among them.
pub proof fn lemma_reader_reads_strings_before_null(entries: Seq<Option<Seq<char>>>)
    ensures
        reader_after(entries).strings == strings_before_null(entries),
        reader_after(entries).done <==> exists|i: int|
            0 <= i < entries.len() && #[trigger] entries[i] is None,
    decreases entries.len(),
{
    if entries.len() > 0 {
        let last = entries.last();
        let front = entries.drop_last();
        lemma_reader_reads_strings_before_null(front);
        lemma_strings_before_null_push(front, last);
        assert(entries =~= front.push(last));
        if reader_after(front).done {
            let i = choose|i: int| 0 <= i < front.len() && #[trigger] front[i] is None;
            assert(entries[i] is None);
        } else {
            if last is None {
                assert(entries[entries.len() - 1] is None);
            } else {
                assert forall|i: int| 0 <= i < entries.len() implies !(#[trigger] entries[i] is None) by {
                    if i < entries.len() - 1 {
                        assert(front[i] == entries[i]);
                    }
                }
            }
        }
    }
}

/// The reader's view after a fresh reader of a non-null list takes, in
/// order, each entry it still asks for.
pub open spec fn reader_after(entries: Seq<Option<Seq<char>>>) -> ReaderView
    decreases entries.len(),
{
    if entries.len() == 0 {
        ReaderView { strings: Seq::empty(), done: false }
    } else {
        let before = reader_after(entries.drop_last());
        if before.done {
            before
        } else {
            match entries.last() {
                Some(s) => ReaderView { strings: before.strings.push(s), done: false },
                None => ReaderView { strings: before.strings, done: true },
            }
        }
    }
}

proof fn lemma_strings_before_null_push(entries: Seq<Option<Seq<char>>>, e: Option<Seq<char>>)
    ensures
        strings_before_null(entries.push(e)) == if exists|i: int|
            0 <= i < entries.len() && #[trigger] entries[i] is None {
            strings_before_null(entries)
        } else {
            match e {
                Some(s) => strings_before_null(entries).push(s),
                None => strings_before_null(entries),
            }
        },
    decreases entries.len(),
{
    if entries.len() == 0 {
        assert(entries.push(e).drop_first() =~= Seq::<Option<Seq<char>>>::empty());
        match e {
            Some(s) => {
                assert(entries.push(e)[0] == e);
                assert(strings_before_null(entries.push(e).drop_first()) == Seq::<
                    Seq<char>,
                >::empty());
                assert(strings_before_null(entries.push(e)) =~= seq![s]);
            },
            None => {},
        }
    } else {
        assert(entries.push(e).drop_first() =~= entries.drop_first().push(e));
        lemma_strings_before_null_push(entries.drop_first(), e);
        if entries[0] is None {
        } else {
            let has_null = exists|i: int| 0 <= i < entries.len() && #[trigger] entries[i] is None;
            let rest_has_null = exists|i: int|
                0 <= i < entries.drop_first().len() && #[trigger] entries.drop_first()[i] is None;
            if has_null {
                let i = choose|i: int| 0 <= i < entries.len() && #[trigger] entries[i] is None;
                assert(entries.drop_first()[i - 1] is None);
            }
            if rest_has_null {
                let i = choose|i: int|
                    0 <= i < entries.drop_first().len() && #[trigger] entries.drop_first()[i] is None;
                assert(entries[i + 1] is None);
            }
            match e {
                Some(s) => {
                    if !has_null {
                        assert(seq![entries[0].unwrap()] + strings_before_null(
                            entries.drop_first(),
                        ).push(s) =~= (seq![entries[0].unwrap()] + strings_before_null(
                            entries.drop_first(),
                        )).push(s));
                    }
                },
                None => {},
            }
        }
    }
}

} // verus!
