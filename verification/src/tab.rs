//! Tab identity and metadata.

use vstd::prelude::*;

verus! {

/// Identifies a tab for the lifetime of the daemon. Identifiers are handed
/// out in increasing order and never reused.
#[derive(Debug, Clone, Copy, PartialEq, Eq, Structural, Hash, PartialOrd, Ord)]
pub struct TabId(pub u64);

/// The mathematical content of a tab's metadata.
#[verifier::ext_equal]
pub struct TabMetadataView {
    pub id: TabId,
    pub name: Seq<char>,
    pub dimensions: (u16, u16),
    pub shell: Seq<char>,
    pub dir: Seq<char>,
}

/// Describes a live tab. Only `dimensions` changes after creation.
#[derive(Debug, Eq)]
pub struct TabMetadata {
    pub id: TabId,
    pub name: String,
    /// Columns, then rows.
    pub dimensions: (u16, u16),
    pub shell: String,
    pub dir: String,
}

impl View for TabMetadata {
    type V = TabMetadataView;

    open spec fn view(&self) -> TabMetadataView {
        TabMetadataView {
            id: self.id,
            name: self.name@,
            dimensions: self.dimensions,
            shell: self.shell@,
            dir: self.dir@,
        }
    }
}

impl PartialEq for TabMetadata {
    fn eq(&self, other: &Self) -> (equal: bool) {
        self.id == other.id && self.name == other.name && self.dimensions.0 == other.dimensions.0
            && self.dimensions.1 == other.dimensions.1 && self.shell == other.shell && self.dir
            == other.dir
    }
}

impl vstd::std_specs::cmp::PartialEqSpecImpl for TabMetadata {
    open spec fn obeys_eq_spec() -> bool {
        true
    }

    open spec fn eq_spec(&self, other: &Self) -> bool {
        self@ == other@
    }
}

impl Clone for TabMetadata {
    fn clone(&self) -> (copy: Self)
        ensures
            copy == *self,
    {
        TabMetadata {
            id: self.id,
            name: self.name.clone(),
            dimensions: self.dimensions,
            shell: self.shell.clone(),
            dir: self.dir.clone(),
        }
    }
}

/// The mathematical content of a request to create a tab.
#[verifier::ext_equal]
pub struct CreateTabMetadataView {
    pub name: Seq<char>,
    pub dimensions: (u16, u16),
    pub shell: Seq<char>,
    pub dir: Seq<char>,
}

/// What a client supplies when it asks for a tab.
#[derive(Debug, Eq)]
pub struct CreateTabMetadata {
    pub name: String,
    /// Columns, then rows.
    pub dimensions: (u16, u16),
    pub shell: String,
    pub dir: String,
}

impl View for CreateTabMetadata {
    type V = CreateTabMetadataView;

    open spec fn view(&self) -> CreateTabMetadataView {
        CreateTabMetadataView {
            name: self.name@,
            dimensions: self.dimensions,
            shell: self.shell@,
            dir: self.dir@,
        }
    }
}

impl PartialEq for CreateTabMetadata {
    fn eq(&self, other: &Self) -> (equal: bool) {
        self.name == other.name && self.dimensions.0 == other.dimensions.0 && self.dimensions.1
            == other.dimensions.1 && self.shell == other.shell && self.dir == other.dir
    }
}

impl vstd::std_specs::cmp::PartialEqSpecImpl for CreateTabMetadata {
    open spec fn obeys_eq_spec() -> bool {
        true
    }

    open spec fn eq_spec(&self, other: &Self) -> bool {
        self@ == other@
    }
}

impl Clone for CreateTabMetadata {
    fn clone(&self) -> (copy: Self)
        ensures
            copy == *self,
    {
        CreateTabMetadata {
            name: self.name.clone(),
            dimensions: self.dimensions,
            shell: self.shell.clone(),
            dir: self.dir.clone(),
        }
    }
}

/// `String::push` appends one character to the end of the string.
pub assume_specification[ String::push ](text: &mut String, ch: char)
    ensures
        final(text)@ == old(text)@.push(ch),
;

/// Whether a character is white space, as Unicode's `White_Space` property
/// has it.
pub open spec fn is_space(c: char) -> bool {
    let code = c as u32;
    ||| 0x09 <= code <= 0x0D
    ||| code == 0x20
    ||| code == 0x85
    ||| code == 0xA0
    ||| code == 0x1680
    ||| 0x2000 <= code <= 0x200A
    ||| code == 0x2028
    ||| code == 0x2029
    ||| code == 0x202F
    ||| code == 0x205F
    ||| code == 0x3000
}

/// A text without the white space at its start.
pub open spec fn trim_start(text: Seq<char>) -> Seq<char>
    decreases text.len(),
{
    if text.len() > 0 && is_space(text.first()) {
        trim_start(text.drop_first())
    } else {
        text
    }
}

/// A text without the white space at its end.
pub open spec fn trim_end(text: Seq<char>) -> Seq<char>
    decreases text.len(),
{
    if text.len() > 0 && is_space(text.last()) {
        trim_end(text.drop_last())
    } else {
        text
    }
}

/// A text in which every run of slashes has become a single slash.
pub open spec fn squeeze(text: Seq<char>) -> Seq<char>
    decreases text.len(),
{
    if text.len() == 0 {
        text
    } else if text.last() == '/' && text.len() >= 2 && text[text.len() - 2] == '/' {
        squeeze(text.drop_last())
    } else {
        squeeze(text.drop_last()).push(text.last())
    }
}

/// The form in which tab names are stored and compared: without white
/// space around them, and with single slashes between their parts.
pub open spec fn normalized(name: Seq<char>) -> Seq<char> {
    squeeze(trim_end(trim_start(name)))
}

proof fn lemma_trim_start_skips(text: Seq<char>, from: int)
    requires
        0 <= from <= text.len(),
        forall|k: int| 0 <= k < from ==> is_space(#[trigger] text[k]),
        from < text.len() ==> !is_space(text[from]),
    ensures
        trim_start(text) == text.skip(from),
    decreases from,
{
    if from > 0 {
        let rest = text.drop_first();
        assert forall|k: int| 0 <= k < from - 1 implies is_space(#[trigger] rest[k]) by {}
        lemma_trim_start_skips(rest, from - 1);
    }
}

proof fn lemma_trim_end_takes(text: Seq<char>, to: int)
    requires
        0 <= to <= text.len(),
        forall|k: int| to <= k < text.len() ==> is_space(#[trigger] text[k]),
        to > 0 ==> !is_space(text[to - 1]),
    ensures
        trim_end(text) == text.take(to),
    decreases text.len() - to,
{
    if to < text.len() {
        lemma_trim_end_takes(text.drop_last(), to);
    }
}

fn is_space_char(c: char) -> (space: bool)
    ensures
        space == is_space(c),
{
    let code: u32 = c as u32;
    (0x09 <= code && code <= 0x0D) || code == 0x20 || code == 0x85 || code == 0xA0 || code
        == 0x1680 || (0x2000 <= code && code <= 0x200A) || code == 0x2028 || code == 0x2029
        || code == 0x202F || code == 0x205F || code == 0x3000
}

/// The characters of a text, one by one.
fn chars_of(text: &str) -> (chars: Vec<char>)
    ensures
        chars@ == text@,
{
    let mut chars: Vec<char> = Vec::new();
    for c in it: text.chars()
        invariant
            chars@ == it.seq().take(it.index() as int),
            it.seq() == text@,
    {
        chars.push(c);
    }
    chars
}

/// Brings a tab name into the form in which names are stored and compared:
/// white space around it is removed and repeated slashes become one.
pub fn normalize_name(name: &str) -> (out: String)
    ensures
        out@ == normalized(name@),
{
    let chars = chars_of(name);
    let len: usize = chars.len();
    let mut from: usize = 0;
    while from < len && is_space_char(chars[from])
        invariant
            from <= len == chars@.len(),
            forall|k: int| 0 <= k < from ==> is_space(#[trigger] chars@[k]),
        decreases len - from,
    {
        from = from + 1;
    }
    proof {
        lemma_trim_start_skips(chars@, from as int);
    }
    let ghost tail = chars@.skip(from as int);
    let mut to: usize = len;
    while to > from && is_space_char(chars[to - 1])
        invariant
            from <= to <= len == chars@.len(),
            tail == chars@.skip(from as int),
            forall|k: int| to - from <= k < tail.len() ==> is_space(#[trigger] tail[k]),
        decreases to,
    {
        to = to - 1;
    }
    let ghost kept = chars@.subrange(from as int, to as int);
    proof {
        lemma_trim_end_takes(tail, to - from);
        assert(tail.take(to - from) =~= kept);
    }
    let mut out = String::new();
    let mut at: usize = from;
    let mut after_slash = false;
    while at < to
        invariant
            from <= at <= to <= len == chars@.len(),
            kept == chars@.subrange(from as int, to as int),
            out@ == squeeze(kept.take(at - from)),
            after_slash == (at > from && chars@[at - 1] == '/'),
        decreases to - at,
    {
        let c = chars[at];
        proof {
            let seen = kept.take(at - from + 1);
            assert(seen.drop_last() =~= kept.take(at - from));
        }
        if !(c == '/' && after_slash) {
            out.push(c);
        }
        after_slash = c == '/';
        at = at + 1;
    }
    proof {
        assert(kept.take(to - from) =~= kept);
    }
    out
}

/// Whether a name is in normal form: no white space at either end, and no
/// slash straight after a slash.
pub open spec fn is_normal(name: Seq<char>) -> bool {
    &&& name.len() > 0 ==> !is_space(name.first()) && !is_space(name.last())
    &&& forall|i: int| 0 < i < name.len() ==> !(name[i - 1] == '/' && #[trigger] name[i] == '/')
}

proof fn lemma_trim_start_shape(text: Seq<char>)
    ensures
        trim_start(text).len() > 0 ==> !is_space(trim_start(text).first()),
        exists|from: int| 0 <= from <= text.len() && trim_start(text) == #[trigger] text.skip(from),
    decreases text.len(),
{
    if text.len() > 0 && is_space(text.first()) {
        lemma_trim_start_shape(text.drop_first());
        let from = choose|from: int|
            0 <= from <= text.drop_first().len() && trim_start(text.drop_first())
                == #[trigger] text.drop_first().skip(from);
        assert(text.drop_first().skip(from) =~= text.skip(from + 1));
    } else {
        assert(text.skip(0) =~= text);
    }
}

proof fn lemma_trim_end_shape(text: Seq<char>)
    ensures
        trim_end(text).len() > 0 ==> !is_space(trim_end(text).last()),
        exists|to: int| 0 <= to <= text.len() && trim_end(text) == #[trigger] text.take(to),
    decreases text.len(),
{
    if text.len() > 0 && is_space(text.last()) {
        lemma_trim_end_shape(text.drop_last());
        let to = choose|to: int|
            0 <= to <= text.drop_last().len() && trim_end(text.drop_last())
                == #[trigger] text.drop_last().take(to);
        assert(text.drop_last().take(to) =~= text.take(to));
    } else {
        assert(text.take(text.len() as int) =~= text);
    }
}

proof fn lemma_squeeze_shape(text: Seq<char>)
    ensures
        squeeze(text).len() <= text.len(),
        text.len() > 0 ==> squeeze(text).len() > 0 && squeeze(text).first() == text.first()
            && squeeze(text).last() == text.last(),
        forall|i: int|
            0 < i < squeeze(text).len() ==> !(squeeze(text)[i - 1] == '/' && #[trigger] squeeze(
                text,
            )[i] == '/'),
    decreases text.len(),
{
    if text.len() > 0 {
        lemma_squeeze_shape(text.drop_last());
    }
}

proof fn lemma_squeeze_keeps_normal(text: Seq<char>)
    requires
        forall|i: int| 0 < i < text.len() ==> !(text[i - 1] == '/' && #[trigger] text[i] == '/'),
    ensures
        squeeze(text) == text,
    decreases text.len(),
{
    if text.len() > 0 {
        let init = text.drop_last();
        assert forall|i: int| 0 < i < init.len() implies !(init[i - 1] == '/' && #[trigger] init[i]
            == '/') by {}
        lemma_squeeze_keeps_normal(init);
    }
}

/// A name in normal form is its own normal form.
pub proof fn lemma_normal_is_kept(name: Seq<char>)
    requires
        is_normal(name),
    ensures
        normalized(name) == name,
{
    lemma_squeeze_keeps_normal(name);
}

/// Normalizing gives a name in normal form, so that normalizing once more
/// changes nothing.
pub proof fn lemma_normalized_is_normal(name: Seq<char>)
    ensures
        is_normal(normalized(name)),
        normalized(normalized(name)) == normalized(name),
{
    let front = trim_start(name);
    let both = trim_end(front);
    lemma_trim_start_shape(name);
    lemma_trim_end_shape(front);
    lemma_squeeze_shape(both);
    lemma_normal_is_kept(normalized(name));
}

} // verus!
