//! Indexed chunks of a tab's stdout, and unindexed chunks of stdin.

use vstd::prelude::*;
use vstd::string::StringExecFns;
use vstd::utf8::*;

verus! {

/// The error of `core::str::from_utf8`. Nothing is read from it.
#[verifier::external_type_specification]
#[verifier::external_body]
pub struct ExUtf8Error(core::str::Utf8Error);

/// `core::str::from_utf8` accepts exactly the byte slices that are valid
/// UTF-8, and the text it hands back is encoded by those same bytes.
pub assume_specification[ core::str::from_utf8 ](v: &[u8]) -> (res: Result<
    &str,
    core::str::Utf8Error,
>)
    ensures
        res is Ok <==> valid_utf8(v@),
        res matches Ok(text) ==> encode_utf8(text@) == v@,
;

/// The text that `snailquote::escape` gives for a text: the input quoted and
/// escaped in the manner of a shell, so that it can be shown on one line.
pub uninterp spec fn escaped(text: Seq<char>) -> Seq<char>;

/// Calls `snailquote::escape` and copies what it returns into a `String`.
/// The result is a function of the text alone; the contract gives it its name.
#[verifier::external_body]
fn escape(text: &str) -> (quoted: String)
    ensures
        quoted@ == escaped(text@),
{
    snailquote::escape(text).into_owned()
}

/// The digit that shows a value below sixteen in base sixteen.
pub open spec fn hex_digit(value: u8) -> char {
    if value < 10 {
        (48 + value) as char
    } else {
        (87 + value) as char
    }
}

/// How a byte that begins no valid scalar is shown: a backslash, an `x` and
/// the byte's value in two digits of base sixteen.
pub open spec fn byte_escape(byte: u8) -> Seq<char> {
    seq!['\\', 'x', hex_digit(byte / 16), hex_digit(byte % 16)]
}

/// The text that a run of raw bytes stands for. Every scalar that is
/// validly encoded in UTF-8 is kept, and every byte that begins no valid
/// scalar is shown by the escape of its value.
pub open spec fn text_of(data: Seq<u8>) -> Seq<char>
    decreases data.len(),
{
    if data.len() == 0 {
        Seq::empty()
    } else if valid_first_scalar(data) {
        seq![decode_first_scalar(data) as char] + text_of(pop_first_scalar(data))
    } else {
        byte_escape(data[0]) + text_of(data.skip(1))
    }
}

/// The diagnostic rendering of raw bytes.
pub open spec fn rendered(data: Seq<u8>) -> Seq<char> {
    escaped(text_of(data))
}

/// The number of bytes that a scalar takes whose encoding begins with this
/// byte, or zero where no encoding begins with it.
pub open spec fn leader_width(byte: u8) -> int {
    if is_leading_byte_width_1(byte) {
        1
    } else if is_leading_byte_width_2(byte) {
        2
    } else if is_leading_byte_width_3(byte) {
        3
    } else if is_leading_byte_width_4(byte) {
        4
    } else {
        0
    }
}

/// Bytes begin with a valid scalar exactly where as many of them as the
/// first byte announces are valid UTF-8 by themselves; they then encode
/// that scalar alone.
proof fn lemma_first_scalar(bytes: Seq<u8>)
    requires
        bytes.len() > 0,
        1 <= leader_width(bytes[0]) <= bytes.len(),
    ensures
        valid_utf8(bytes.take(leader_width(bytes[0]))) == valid_first_scalar(bytes),
        valid_first_scalar(bytes) ==> {
            &&& decode_utf8(bytes.take(leader_width(bytes[0]))) == seq![
                decode_first_scalar(bytes) as char,
            ]
            &&& pop_first_scalar(bytes) == bytes.skip(leader_width(bytes[0]))
        },
{
    let width = leader_width(bytes[0]);
    let head = bytes.take(width);
    if valid_first_scalar(bytes) {
        assert(valid_utf8(pop_first_scalar(head)));
        assert(decode_utf8(pop_first_scalar(head)) =~= Seq::<char>::empty());
    }
}

/// Bytes begin with no valid scalar where no encoding begins with their
/// first byte, or where fewer bytes follow than it announces.
proof fn lemma_no_scalar(bytes: Seq<u8>)
    requires
        bytes.len() > 0,
        leader_width(bytes[0]) == 0 || leader_width(bytes[0]) > bytes.len(),
    ensures
        !valid_first_scalar(bytes),
{
}

/// Where bytes are valid UTF-8, their text is the text that they encode.
pub proof fn lemma_valid_text_is_kept(data: Seq<u8>)
    requires
        valid_utf8(data),
    ensures
        text_of(data) == decode_utf8(data),
    decreases data.len(),
{
    if data.len() > 0 {
        lemma_valid_text_is_kept(pop_first_scalar(data));
    }
}

fn hex_digit_of(value: u8) -> (digit: char)
    requires
        value < 16,
    ensures
        digit == hex_digit(value),
{
    if value < 10 {
        (48 + value) as char
    } else {
        (87 + value) as char
    }
}

fn width_of(byte: u8) -> (width: usize)
    ensures
        width == leader_width(byte),
{
    if byte <= 0x7f {
        1
    } else if 0xc0 <= byte && byte <= 0xdf {
        2
    } else if 0xe0 <= byte && byte <= 0xef {
        3
    } else if 0xf0 <= byte && byte <= 0xf7 {
        4
    } else {
        0
    }
}

/// The scalar that the bytes from `at` on begin with, as a text of one
/// character, where they begin with a valid one.
fn scalar_at(data: &[u8], at: usize) -> (found: Option<&str>)
    requires
        at < data@.len(),
    ensures
        found is Some <==> valid_first_scalar(data@.skip(at as int)),
        found matches Some(scalar) ==> {
            &&& scalar@ == seq![decode_first_scalar(data@.skip(at as int)) as char]
            &&& pop_first_scalar(data@.skip(at as int)) == data@.skip(
                at + leader_width(data@[at as int]),
            )
            &&& 1 <= leader_width(data@[at as int]) <= data@.len() - at
        },
{
    let ghost rest = data@.skip(at as int);
    let width: usize = width_of(data[at]);
    if width == 0 || width > data.len() - at {
        proof {
            lemma_no_scalar(rest);
        }
        return None;
    }
    let piece = vstd::slice::slice_subrange(data, at, at + width);
    proof {
        lemma_first_scalar(rest);
        assert(piece@ =~= rest.take(width as int));
    }
    match core::str::from_utf8(piece) {
        Ok(scalar) => {
            proof {
                encode_utf8_decode_utf8(scalar@);
            }
            Some(scalar)
        },
        Err(_) => None,
    }
}

/// Reads raw bytes as text: every validly encoded scalar is kept, and
/// every byte that begins none is shown by the escape of its value.
pub fn utf8_text(data: &[u8]) -> (text: String)
    ensures
        text@ == text_of(data@),
{
    let mut text = String::new();
    let mut at: usize = 0;
    assert(data@.skip(0) =~= data@);
    while at < data.len()
        invariant
            at <= data@.len(),
            text@ + text_of(data@.skip(at as int)) == text_of(data@),
        decreases data@.len() - at,
    {
        let ghost rest = data@.skip(at as int);
        match scalar_at(data, at) {
            Some(scalar) => {
                let width: usize = width_of(data[at]);
                text.append(scalar);
                at = at + width;
            },
            None => {
                let byte: u8 = data[at];
                assert(rest.skip(1) =~= data@.skip(at + 1));
                text.push('\\');
                text.push('x');
                text.push(hex_digit_of(byte / 16));
                text.push(hex_digit_of(byte % 16));
                at = at + 1;
            },
        }
    }
    text
}

/// Renders raw bytes for diagnostics: the text that they stand for, quoted
/// and escaped so that it can be shown on one line.
pub fn to_string(data: &[u8]) -> (shown: String)
    ensures
        shown@ == rendered(data@),
{
    let text = utf8_text(data);
    escape(text.as_str())
}

/// The index that lies `count` bytes after `index`, or the largest 64-bit
/// value where that would lie beyond it.
pub open spec fn index_after(index: nat, count: nat) -> nat {
    if index + count <= u64::MAX {
        index + count
    } else {
        u64::MAX as nat
    }
}

/// The mathematical content of an output chunk: where it starts in the
/// tab's stdout, and the bytes it carries.
#[verifier::ext_equal]
pub struct ChunkView {
    pub index: nat,
    pub data: Seq<u8>,
}

impl ChunkView {
    /// The byte index at which the chunk starts (inclusive).
    pub open spec fn start(self) -> nat {
        self.index
    }

    /// The byte index at which the chunk ends (exclusive). Indices stop at
    /// the largest 64-bit value.
    pub open spec fn end(self) -> nat {
        index_after(self.index, self.data.len())
    }

    /// Whether the chunk's end is the true end of its bytes, that is, whether
    /// no byte of it lies past the largest index.
    pub open spec fn exact(self) -> bool {
        self.index + self.data.len() <= u64::MAX
    }

    /// Whether the chunk starts at the largest index and yet has bytes. Such
    /// a chunk cannot be told to start any later.
    pub open spec fn stuck(self) -> bool {
        self.index == u64::MAX && self.data.len() > 0
    }

    /// Whether the chunk carries the byte at `index`.
    pub open spec fn contains(self, index: nat) -> bool {
        self.start() <= index < self.end()
    }

    /// The chunk without the bytes that lie before `index`.
    pub open spec fn truncate_before(self, index: nat) -> ChunkView {
        if index <= self.start() {
            self
        } else if index >= self.end() {
            ChunkView { index: self.index, data: Seq::empty() }
        } else {
            ChunkView { index, data: self.data.skip(index - self.index) }
        }
    }
}

/// Whether two runs of bytes are the same.
fn same_bytes(left: &Vec<u8>, right: &Vec<u8>) -> (same: bool)
    ensures
        same == (left@ == right@),
{
    if left.len() != right.len() {
        return false;
    }
    let mut i: usize = 0;
    while i < left.len()
        invariant
            i <= left@.len() == right@.len(),
            forall|k: int| 0 <= k < i ==> left@[k] == right@[k],
        decreases left@.len() - i,
    {
        if left[i] != right[i] {
            return false;
        }
        i = i + 1;
    }
    assert(left@ =~= right@);
    true
}

/// An indexed chunk of stdout, sent by a single running PTY process. Two
/// chunks are equal where they start at the same index and carry the same
/// bytes.
#[derive(Debug, Eq)]
pub struct OutputChunk {
    /// The absolute offset of the first byte of `data` in the tab's stdout.
    pub index: u64,
    /// Raw bytes of stdout.
    pub data: Vec<u8>,
}

impl View for OutputChunk {
    type V = ChunkView;

    open spec fn view(&self) -> ChunkView {
        ChunkView { index: self.index as nat, data: self.data@ }
    }
}

impl PartialEq for OutputChunk {
    fn eq(&self, other: &Self) -> (equal: bool) {
        self.index == other.index && same_bytes(&self.data, &other.data)
    }
}

impl vstd::std_specs::cmp::PartialEqSpecImpl for OutputChunk {
    open spec fn obeys_eq_spec() -> bool {
        true
    }

    open spec fn eq_spec(&self, other: &Self) -> bool {
        self@ == other@
    }
}

impl Clone for OutputChunk {
    fn clone(&self) -> (copy: Self)
        ensures
            copy@ == self@,
    {
        OutputChunk { index: self.index, data: self.data.clone() }
    }
}

impl OutputChunk {
    /// The data buffer length.
    pub fn len(&self) -> (n: usize)
        ensures
            n == self@.data.len(),
    {
        self.data.len()
    }

    /// Returns true if this chunk's data contains the given index.
    pub fn contains(&self, index: u64) -> (found: bool)
        ensures
            found == self@.contains(index as nat),
    {
        index >= self.start() && index < self.end()
    }

    /// Returns true if this chunk's data ends before the given index.
    pub fn is_before(&self, index: u64) -> (before: bool)
        ensures
            before == (self@.end() <= index),
    {
        self.end() <= index
    }

    /// Removes all data that lies before the given index. Nothing changes
    /// where the chunk starts at or after `index`; otherwise a chunk that
    /// ends at or before `index` keeps its start and loses all its bytes,
    /// and any other chunk starts at `index` afterwards and ends where it
    /// ended.
    pub fn truncate_before(&mut self, index: u64)
        ensures
            final(self)@ == old(self)@.truncate_before(index as nat),
            index < old(self)@.end() ==> {
                &&& final(self)@.start() == vstd::math::max(
                    old(self)@.start() as int,
                    vstd::math::min(index as int, old(self)@.end() as int),
                )
                &&& final(self)@.end() == old(self)@.end()
            },
            index >= old(self)@.end() && !old(self)@.stuck() ==> final(self)@.data.len() == 0,
    {
        if index <= self.start() {
            return ;
        }
        if index >= self.end() {
            self.data.clear();
            return ;
        }
        // The index lies inside the chunk, so the cut fits a length.
        let len: usize = self.data.len();
        assert(index - self.index < len);
        let data_index: usize = (index - self.start()) as usize;
        let kept = self.data.split_off(data_index);
        self.data = kept;
        self.index = index;
    }

    /// The byte index at which this buffer starts (inclusive).
    pub fn start(&self) -> (index: u64)
        ensures
            index == self@.start(),
    {
        self.index
    }

    /// The byte index at which this buffer ends (exclusive), saturating at
    /// the largest 64-bit value.
    pub fn end(&self) -> (index: u64)
        ensures
            index == self@.end(),
    {
        self.index.saturating_add(self.data.len() as u64)
    }

    /// The chunk's bytes as escaped text, for diagnostics.
    pub fn to_string(&self) -> (shown: String)
        ensures
            shown@ == rendered(self@.data),
    {
        self::to_string(self.data.as_slice())
    }
}

/// An unindexed chunk of stdin. May be sent by several connections. Two
/// chunks are equal where they carry the same bytes.
#[derive(Debug, Eq)]
pub struct InputChunk {
    /// Raw bytes of stdin.
    pub data: Vec<u8>,
}

impl View for InputChunk {
    type V = Seq<u8>;

    open spec fn view(&self) -> Seq<u8> {
        self.data@
    }
}

impl PartialEq for InputChunk {
    fn eq(&self, other: &Self) -> (equal: bool) {
        same_bytes(&self.data, &other.data)
    }
}

impl vstd::std_specs::cmp::PartialEqSpecImpl for InputChunk {
    open spec fn obeys_eq_spec() -> bool {
        true
    }

    open spec fn eq_spec(&self, other: &Self) -> bool {
        self@ == other@
    }
}

impl Clone for InputChunk {
    fn clone(&self) -> (copy: Self)
        ensures
            copy@ == self@,
    {
        InputChunk { data: self.data.clone() }
    }
}

impl InputChunk {
    /// The data buffer length.
    pub fn len(&self) -> (n: usize)
        ensures
            n == self@.len(),
    {
        self.data.len()
    }

    /// The chunk's bytes as escaped text, for diagnostics.
    pub fn to_string(&self) -> (shown: String)
        ensures
            shown@ == rendered(self@),
    {
        self::to_string(self.data.as_slice())
    }
}

} // verus!
