//! Clipboard history: the records kept in the history table, the items shown
//! to the user, and the computations around capturing, searching, expiring and
//! deleting entries. The table itself lives in SQLite, outside this library.
use vstd::prelude::*;
use crate::paths::{
    backslash_dir, backslash_name, is_backslash_path, is_bare_file_name, is_single_component,
    is_slash_free_name, last_of, lemma_backslash_dir, lemma_backslash_path, lemma_last_of,
    lemma_last_of_concat, name_extension, name_stem, path_extension, path_file_stem, path_join,
    path_parent, path_separator,
};
use crate::text::{push_char, take_chars, truncate_chars};

verus! {

broadcast use vstd::string::group_string_axioms;

/// Longest clipboard text kept in the history, in characters.
pub const MAX_TEXT_CHARS: usize = 10000;

/// Length of the preview shown for a captured text, in characters.
pub const PREVIEW_CHARS: usize = 100;

/// How many items a search returns at most.
pub const SEARCH_LIMIT: usize = 200;

/// How many recent items are looked through to find an item being deleted.
pub const DELETE_LOOKUP_LIMIT: usize = 1000;

/// Seconds in a day.
pub const SECONDS_PER_DAY: i64 = 86400;

// ---------------------------------------------------------------------------
// Records and items
// ---------------------------------------------------------------------------

/// A new clipboard item, before it is inserted into the history.
pub struct NewClipboardItem {
    pub content: Option<String>,
    pub image_path: Option<String>,
    pub source_app: String,
}

/// A row of the history table.
#[derive(Debug, Clone)]
pub struct ClipboardRecord {
    pub id: i64,
    pub content: Option<String>,
    pub image_path: Option<String>,
    pub source_app: String,
    pub is_pinned: bool,
    /// Creation time, in whole seconds since the Unix epoch.
    pub created_at: i64,
}

/// A history item as handed to the user interface.
#[derive(Debug, Clone)]
pub struct ClipboardItem {
    pub id: i64,
    pub content: Option<String>,
    pub image_path: Option<String>,
    pub source_app: String,
    pub is_pinned: bool,
    /// Creation time, in whole seconds since the Unix epoch.
    pub created_at: i64,
}

/// The text of an optional string.
pub open spec fn opt_view(o: Option<String>) -> Option<Seq<char>> {
    match o {
        Some(s) => Some(s@),
        None => None,
    }
}

/// A copy of an optional string.
fn clone_opt(o: &Option<String>) -> (r: Option<String>)
    ensures
        r == *o,
{
    match o {
        Some(s) => Some(s.clone()),
        None => None,
    }
}

impl ClipboardRecord {
    /// Builds a record from the columns of a table row; the pin flag is stored
    /// as an integer, and any value other than zero means pinned.
    pub fn from_row(
        id: i64,
        content: Option<String>,
        image_path: Option<String>,
        source_app: String,
        pinned_flag: i64,
        created_at: i64,
    ) -> (r: ClipboardRecord)
        ensures
            r.id == id,
            r.content == content,
            r.image_path == image_path,
            r.source_app == source_app,
            r.is_pinned == (pinned_flag != 0),
            r.created_at == created_at,
    {
        ClipboardRecord { id, content, image_path, source_app, is_pinned: pinned_flag != 0, created_at }
    }
}

impl ClipboardItem {
    /// The item with the same fields as `record`.
    pub open spec fn of_record(record: ClipboardRecord) -> ClipboardItem {
        ClipboardItem {
            id: record.id,
            content: record.content,
            image_path: record.image_path,
            source_app: record.source_app,
            is_pinned: record.is_pinned,
            created_at: record.created_at,
        }
    }

    /// Whether this is an image item.
    pub fn is_image(&self) -> (b: bool)
        ensures
            b == self.image_path is Some,
    {
        self.image_path.is_some()
    }

    /// The item that was just inserted into the history with row `id`,
    /// unpinned.
    pub fn inserted(id: i64, item: NewClipboardItem, created_at: i64) -> (r: ClipboardItem)
        ensures
            r.id == id,
            r.content == item.content,
            r.image_path.is_none(),
            r.source_app == item.source_app,
            !r.is_pinned,
            r.created_at == created_at,
    {
        ClipboardItem {
            id,
            content: item.content,
            image_path: None,
            source_app: item.source_app,
            is_pinned: false,
            created_at,
        }
    }

    /// A copy of `record` as an item.
    pub fn from_record_ref(record: &ClipboardRecord) -> (r: ClipboardItem)
        ensures
            r == ClipboardItem::of_record(*record),
    {
        ClipboardItem {
            id: record.id,
            content: clone_opt(&record.content),
            image_path: clone_opt(&record.image_path),
            source_app: record.source_app.clone(),
            is_pinned: record.is_pinned,
            created_at: record.created_at,
        }
    }
}

impl From<ClipboardRecord> for ClipboardItem {
    fn from(record: ClipboardRecord) -> (r: ClipboardItem) {
        ClipboardItem {
            id: record.id,
            content: record.content,
            image_path: record.image_path,
            source_app: record.source_app,
            is_pinned: record.is_pinned,
            created_at: record.created_at,
        }
    }
}

impl vstd::std_specs::convert::FromSpecImpl<ClipboardRecord> for ClipboardItem {
    open spec fn obeys_from_spec() -> bool {
        true
    }

    open spec fn from_spec(v: ClipboardRecord) -> ClipboardItem {
        ClipboardItem::of_record(v)
    }
}

/// The items for a list of records, in the same order.
pub fn items_from_records(records: &Vec<ClipboardRecord>) -> (items: Vec<ClipboardItem>)
    ensures
        items@.len() == records@.len(),
        forall|i: int|
            0 <= i < records@.len() ==> #[trigger] items@[i] == ClipboardItem::of_record(
                records@[i],
            ),
{
    let mut items: Vec<ClipboardItem> = Vec::new();
    let mut i: usize = 0;
    while i < records.len()
        invariant
            i <= records@.len(),
            items@.len() == i,
            forall|j: int|
                0 <= j < i ==> #[trigger] items@[j] == ClipboardItem::of_record(records@[j]),
        decreases records@.len() - i,
    {
        items.push(ClipboardItem::from_record_ref(&records[i]));
        i = i + 1;
    }
    items
}

// ---------------------------------------------------------------------------
// Capturing text
// ---------------------------------------------------------------------------

/// Remembers the clipboard sequence number last seen, so that each change of
/// the clipboard is captured once.
pub struct SequenceTracker {
    last_sequence: u32,
}

impl SequenceTracker {
    /// The sequence number last captured (zero before the first capture).
    pub closed spec fn last(self) -> u32 {
        self.last_sequence
    }

    /// A tracker that has seen nothing yet.
    pub fn new() -> (t: Self)
        ensures
            t.last() == 0,
    {
        SequenceTracker { last_sequence: 0 }
    }

    /// Reports whether the clipboard with sequence number `sequence` holds
    /// new content. Zero means that the number is unavailable, and a number
    /// equal to the last one seen means that nothing changed; otherwise the
    /// number is remembered.
    pub fn observe(&mut self, sequence: u32) -> (changed: bool)
        ensures
            changed == (sequence != 0 && sequence != old(self).last()),
            final(self).last() == if changed {
                sequence
            } else {
                old(self).last()
            },
    {
        if sequence == 0 || sequence == self.last_sequence {
            return false;
        }
        self.last_sequence = sequence;
        true
    }
}

impl NewClipboardItem {
    /// The history item for a text read from the clipboard: the text cut to
    /// its first `MAX_TEXT_CHARS` characters, no image, no source application.
    pub fn from_text(text: &str) -> (item: NewClipboardItem)
        ensures
            opt_view(item.content) == Some(take_chars(text@, MAX_TEXT_CHARS as nat)),
            item.image_path.is_none(),
            item.source_app@.len() == 0,
    {
        let content = truncate_chars(text, MAX_TEXT_CHARS);
        NewClipboardItem { content: Some(content), image_path: None, source_app: String::new() }
    }
}

/// Whether `char::is_control` holds: the Unicode general category Cc, which
/// is exactly U+0000..=U+001F and U+007F..=U+009F.
pub open spec fn is_control(c: char) -> bool {
    (c as u32) <= 0x1f || (0x7f <= (c as u32) && (c as u32) <= 0x9f)
}

/// Whether a character appears in a preview.
pub open spec fn kept_in_preview(c: char) -> bool {
    !is_control(c) || c == ' '
}

/// The preview of a text: its characters other than control characters, cut
/// to the first `max_len`.
pub open spec fn preview_of(text: Seq<char>, max_len: nat) -> Seq<char> {
    take_chars(text.filter(|c: char| kept_in_preview(c)), max_len)
}

fn is_control_char(c: char) -> (b: bool)
    ensures
        b == is_control(c),
{
    let v = c as u32;
    v <= 0x1f || (0x7f <= v && v <= 0x9f)
}

/// Law: a preview holds no control character other than a space and is at
/// most `max_len` characters long.
pub proof fn preview_is_clean(text: Seq<char>, max_len: nat)
    ensures
        preview_of(text, max_len).len() <= max_len,
        forall|i: int|
            0 <= i < preview_of(text, max_len).len() ==> kept_in_preview(
                #[trigger] preview_of(text, max_len)[i],
            ),
{
    let pred = |c: char| kept_in_preview(c);
    let f = text.filter(pred);
    assert forall|i: int| 0 <= i < preview_of(text, max_len).len() implies kept_in_preview(
        #[trigger] preview_of(text, max_len)[i],
    ) by {
        assert(preview_of(text, max_len)[i] == f[i]);
        text.lemma_filter_pred(pred, i);
    }
}

/// Whether `c` is in the Unicode general category Cc: U+0000..=U+001F or
/// U+007F..=U+009F.
pub open spec fn in_category_cc(c: char) -> bool {
    (c as u32) < 0x20 || (0x7f <= (c as u32) && (c as u32) < 0xa0)
}

/// Law: a character outside category Cc that arrives while the preview is
/// not full is appended to it; a character in Cc leaves it unchanged; a full
/// preview stays as it is.
pub proof fn preview_appends_non_control(text: Seq<char>, c: char, max_len: nat)
    ensures
        !in_category_cc(c) && preview_of(text, max_len).len() < max_len ==> preview_of(
            text.push(c),
            max_len,
        ) == preview_of(text, max_len).push(c),
        in_category_cc(c) ==> preview_of(text.push(c), max_len) == preview_of(text, max_len),
        preview_of(text, max_len).len() >= max_len ==> preview_of(text.push(c), max_len)
            == preview_of(text, max_len),
{
    let pred = |x: char| kept_in_preview(x);
    let t2 = text.push(c);
    assert(t2.drop_last() =~= text);
    assert(t2.last() == c);
    reveal_with_fuel(Seq::filter, 1);
    assert(t2.filter(pred) == if pred(c) {
        text.filter(pred).push(c)
    } else {
        text.filter(pred)
    });
    let f = text.filter(pred);
    if pred(c) && f.len() >= max_len {
        assert(f.push(c).take(max_len as int) =~= f.take(max_len as int));
    }
}

/// Law: the preview of a text without characters of category Cc is the text
/// itself, cut to `max_len` characters.
pub proof fn preview_of_clean_text(text: Seq<char>, max_len: nat)
    requires
        forall|i: int| 0 <= i < text.len() ==> !in_category_cc(#[trigger] text[i]),
    ensures
        preview_of(text, max_len) == take_chars(text, max_len),
    decreases text.len(),
{
    let pred = |x: char| kept_in_preview(x);
    if text.len() > 0 {
        let t = text.drop_last();
        assert forall|i: int| 0 <= i < t.len() implies !in_category_cc(#[trigger] t[i]) by {
            assert(t[i] == text[i]);
        }
        preview_of_clean_text(t, max_len);
        assert(text =~= t.push(text.last()));
        preview_appends_non_control(t, text.last(), max_len);
        if t.len() < max_len {
            assert(take_chars(text, max_len) =~= take_chars(t, max_len).push(text.last()));
        } else {
            assert(take_chars(text, max_len) =~= take_chars(t, max_len));
        }
    } else {
        assert(text.filter(pred) =~= text) by {
            reveal_with_fuel(Seq::filter, 1);
        }
    }
}

/// The preview text of a clipboard entry.
pub fn make_preview(text: &str, max_len: usize) -> (res: String)
    ensures
        res@ == preview_of(text@, max_len as nat),
{
    let ghost pred = |c: char| kept_in_preview(c);
    let mut res = String::new();
    let mut count: usize = 0;
    for c in it: text.chars()
        invariant
            it.seq() == text@,
            pred == (|c: char| kept_in_preview(c)),
            count == res@.len(),
            count <= max_len,
            res@ == take_chars(it.seq().take(it.index() as int).filter(pred), max_len as nat),
    {
        let ghost prefix = it.seq().take(it.index() as int);
        proof {
            assert(it.seq().take(it.index() + 1).drop_last() =~= prefix);
            reveal_with_fuel(Seq::filter, 1);
        }
        if !is_control_char(c) || c == ' ' {
            if count < max_len {
                push_char(&mut res, c);
                count = count + 1;
            }
        }
    }
    proof {
        assert(text@.take(text@.len() as int) =~= text@);
    }
    res
}

/// What `capture` stores for a text taken from the clipboard.
pub struct TextCapture {
    /// The text in UTF-8.
    pub content: Vec<u8>,
    /// Always `"text"`.
    pub content_type: String,
    /// The first `PREVIEW_CHARS` characters that are not control characters.
    pub preview: String,
}

/// The capture of a clipboard text; nothing where the text is empty.
pub fn capture_text(text: &str) -> (res: Option<TextCapture>)
    ensures
        res is None <==> text@.len() == 0,
        res matches Some(c) ==> {
            &&& c.content@ == vstd::utf8::encode_utf8(text@)
            &&& c.content_type@ == "text"@
            &&& c.preview@ == preview_of(text@, PREVIEW_CHARS as nat)
        },
{
    if text.is_empty() {
        return None;
    }
    let content = vstd::slice::slice_to_vec(text.as_bytes());
    let content_type = String::from_str("text");
    let preview = make_preview(text, PREVIEW_CHARS);
    Some(TextCapture { content, content_type, preview })
}

// ---------------------------------------------------------------------------
// Searching and expiring
// ---------------------------------------------------------------------------

/// A character of a search query as it appears in a `LIKE` pattern: the
/// wildcards `%` and `_` get a backslash in front.
pub open spec fn escape_like_char(c: char) -> Seq<char> {
    if c == '%' {
        seq!['\\', '%']
    } else if c == '_' {
        seq!['\\', '_']
    } else {
        seq![c]
    }
}

/// A search query with its wildcards escaped.
pub open spec fn escape_like(s: Seq<char>) -> Seq<char>
    decreases s.len(),
{
    if s.len() == 0 {
        seq![]
    } else {
        escape_like(s.drop_last()) + escape_like_char(s.last())
    }
}

/// The `LIKE` pattern that matches contents holding `query` anywhere.
pub open spec fn like_pattern_of(query: Seq<char>) -> Seq<char> {
    seq!['%'] + escape_like(query) + seq!['%']
}

/// The `LIKE` pattern a search for `query` uses: `%`, the query with `%`
/// and `_` escaped by a backslash, then `%`.
pub fn like_pattern(query: &str) -> (p: String)
    ensures
        p@ == like_pattern_of(query@),
{
    let mut p = String::new();
    push_char(&mut p, '%');
    for c in it: query.chars()
        invariant
            it.seq() == query@,
            p@ == seq!['%'] + escape_like(it.seq().take(it.index() as int)),
    {
        proof {
            assert(it.seq().take(it.index() + 1).drop_last() =~= it.seq().take(it.index() as int));
        }
        if c == '%' || c == '_' {
            push_char(&mut p, '\\');
        }
        push_char(&mut p, c);
        proof {
            let prefix = it.seq().take(it.index() as int);
            let next = it.seq().take(it.index() + 1);
            assert(next.last() == c);
            assert(seq!['%'] + escape_like(next) =~= seq!['%'] + escape_like(prefix) + escape_like_char(c));
        }
    }
    push_char(&mut p, '%');
    proof {
        assert(query@.take(query@.len() as int) =~= query@);
    }
    p
}

/// Law: the search pattern for no query matches everything (`%%`); each
/// further query character goes before the closing `%`, unchanged, with a
/// backslash in front exactly where it is `%` or `_`.
pub proof fn like_pattern_appends(query: Seq<char>, c: char)
    ensures
        like_pattern_of(Seq::empty()) == seq!['%', '%'],
        c != '%' && c != '_' ==> like_pattern_of(query.push(c)) == like_pattern_of(
            query,
        ).drop_last().push(c).push('%'),
        c == '%' || c == '_' ==> like_pattern_of(query.push(c)) == like_pattern_of(
            query,
        ).drop_last().push('\\').push(c).push('%'),
{
    let q2 = query.push(c);
    assert(q2.drop_last() =~= query);
    assert(like_pattern_of(Seq::empty()) =~= seq!['%', '%']);
    let base = seq!['%'] + escape_like(query);
    assert(like_pattern_of(query) =~= base + seq!['%']);
    assert(like_pattern_of(query).drop_last() =~= base);
    assert(like_pattern_of(q2) =~= base + escape_like_char(c) + seq!['%']);
    if c != '%' && c != '_' {
        assert(base + escape_like_char(c) + seq!['%'] =~= base.push(c).push('%'));
    } else {
        assert(base + escape_like_char(c) + seq!['%'] =~= base.push('\\').push(c).push('%'));
    }
}

/// Law: a query without `%` and `_` is searched as it is, between `%`s.
pub proof fn like_pattern_of_plain_query(query: Seq<char>)
    requires
        !query.contains('%'),
        !query.contains('_'),
    ensures
        like_pattern_of(query) == seq!['%'] + query + seq!['%'],
    decreases query.len(),
{
    if query.len() > 0 {
        let q = query.drop_last();
        assert(!q.contains('%')) by {
            if q.contains('%') {
                let i = choose|i: int| 0 <= i < q.len() && q[i] == '%';
                assert(query[i] == '%');
            }
        }
        assert(!q.contains('_')) by {
            if q.contains('_') {
                let i = choose|i: int| 0 <= i < q.len() && q[i] == '_';
                assert(query[i] == '_');
            }
        }
        like_pattern_of_plain_query(q);
        let c = query.last();
        assert(query[query.len() - 1] == c);
        assert(query =~= q.push(c));
        like_pattern_appends(q, c);
        assert(seq!['%'] + q + seq!['%'] =~= (seq!['%'] + q).push('%'));
        assert(seq!['%'] + query + seq!['%'] =~= (seq!['%'] + q).push(c).push('%'));
    } else {
        assert(like_pattern_of(query) =~= seq!['%', '%']);
        assert(seq!['%'] + query + seq!['%'] =~= seq!['%', '%']);
    }
}

/// The creation time before which unpinned items have expired, `days` days
/// before `now` (both in seconds since the Unix epoch); saturates at the
/// earliest representable time.
pub fn expiry_cutoff(now: i64, days: u32) -> (cutoff: i64)
    ensures
        cutoff == if now - days * SECONDS_PER_DAY >= i64::MIN {
            now - days * SECONDS_PER_DAY
        } else {
            i64::MIN as int
        },
{
    let span: i64 = (days as i64) * SECONDS_PER_DAY;
    if now >= i64::MIN + span {
        now - span
    } else {
        i64::MIN
    }
}

// ---------------------------------------------------------------------------
// Entries copied back to the clipboard
// ---------------------------------------------------------------------------

/// A stored history entry: its content bytes and their kind.
pub struct ClipboardEntry {
    pub id: i64,
    /// The content; UTF-8 text for entries of type `"text"`.
    pub content: Vec<u8>,
    /// `"text"` for text entries.
    pub content_type: String,
    pub preview: String,
}

/// The characters that `String::from_utf8_lossy` makes of `bytes`.
pub uninterp spec fn utf8_lossy(bytes: Seq<u8>) -> Seq<char>;

/// Decodes bytes as UTF-8 with `String::from_utf8_lossy`, which replaces
/// invalid sequences by U+FFFD. Claimed: the result depends on the bytes
/// alone, and where they are valid UTF-8 it is exactly the text they encode;
/// what replacements are made otherwise is not stated.
#[verifier::external_body]
fn decode_utf8_lossy(bytes: &[u8]) -> (s: String)
    ensures
        s@ == utf8_lossy(bytes@),
        vstd::utf8::valid_utf8(bytes@) ==> s@ == vstd::utf8::decode_utf8(bytes@),
{
    String::from_utf8_lossy(bytes).into_owned()
}

/// The text that copying `entry` back puts on the clipboard: its content
/// decoded as UTF-8 for text entries, nothing for other entries.
pub fn text_to_copy(entry: &ClipboardEntry) -> (res: Option<String>)
    ensures
        res is Some <==> entry.content_type@ == "text"@,
        res matches Some(s) ==> s@ == utf8_lossy(entry.content@),
        res matches Some(s) ==> (vstd::utf8::valid_utf8(entry.content@) ==> s@
            == vstd::utf8::decode_utf8(entry.content@)),
{
    let text_type = String::from_str("text");
    if entry.content_type == text_type {
        Some(decode_utf8_lossy(entry.content.as_slice()))
    } else {
        None
    }
}

/// The history item that stores a captured entry: the content decoded as
/// UTF-8 goes to the text column for entries of type `"text"`, and to the
/// image path column for other entries.
pub fn item_for_entry(content: &[u8], content_type: &str) -> (item: NewClipboardItem)
    ensures
        content_type@ == "text"@ ==> opt_view(item.content) == Some(utf8_lossy(content@))
            && item.image_path is None,
        content_type@ != "text"@ ==> item.content is None && opt_view(item.image_path) == Some(
            utf8_lossy(content@),
        ),
        item.source_app@.len() == 0,
{
    let text = decode_utf8_lossy(content);
    let kind = String::from_str(content_type);
    let text_type = String::from_str("text");
    if kind == text_type {
        NewClipboardItem { content: Some(text), image_path: None, source_app: String::new() }
    } else {
        NewClipboardItem { content: None, image_path: Some(text), source_app: String::new() }
    }
}

/// The entry shown for a history record: a text record gives its text in
/// UTF-8, type `"text"` and its preview; a record with only an image gives
/// the image path, type `"image"` and no preview; an empty record gives an
/// empty text entry.
pub fn entry_for_record(record: &ClipboardRecord) -> (entry: ClipboardEntry)
    ensures
        entry.id == record.id,
        match (record.content, record.image_path) {
            (Some(text), _) => {
                &&& entry.content@ == vstd::utf8::encode_utf8(text@)
                &&& entry.content_type@ == "text"@
                &&& entry.preview@ == preview_of(text@, PREVIEW_CHARS as nat)
            },
            (None, Some(path)) => {
                &&& entry.content@ == vstd::utf8::encode_utf8(path@)
                &&& entry.content_type@ == "image"@
                &&& entry.preview@.len() == 0
            },
            (None, None) => {
                &&& entry.content@.len() == 0
                &&& entry.content_type@ == "text"@
                &&& entry.preview@.len() == 0
            },
        },
{
    match (&record.content, &record.image_path) {
        (Some(text), _) => ClipboardEntry {
            id: record.id,
            content: vstd::slice::slice_to_vec(text.as_str().as_bytes()),
            content_type: String::from_str("text"),
            preview: make_preview(text.as_str(), PREVIEW_CHARS),
        },
        (None, Some(path)) => ClipboardEntry {
            id: record.id,
            content: vstd::slice::slice_to_vec(path.as_str().as_bytes()),
            content_type: String::from_str("image"),
            preview: String::new(),
        },
        (None, None) => ClipboardEntry {
            id: record.id,
            content: Vec::new(),
            content_type: String::from_str("text"),
            preview: String::new(),
        },
    }
}

/// The number of days to keep for a requested count; a negative count is
/// taken as zero.
pub fn retention_days(days: i32) -> (kept: u32)
    ensures
        kept == if days < 0 {
            0
        } else {
            days
        },
{
    if days < 0 {
        0
    } else {
        days as u32
    }
}

/// Law: the bytes that `capture_text` stores for a text are valid UTF-8 and
/// decode to that same text, so copying the entry back restores the text.
pub proof fn captured_text_copies_back(text: Seq<char>)
    ensures
        vstd::utf8::valid_utf8(vstd::utf8::encode_utf8(text)),
        vstd::utf8::decode_utf8(vstd::utf8::encode_utf8(text)) == text,
{
    vstd::utf8::encode_utf8_valid_utf8(text);
    vstd::utf8::encode_utf8_decode_utf8(text);
}

// ---------------------------------------------------------------------------
// Image files
// ---------------------------------------------------------------------------

/// The file name of the thumbnail of an image with stem `stem` and extension
/// `ext`: `{stem}_thumb.{ext}`.
pub fn thumbnail_file_name(stem: &str, ext: &str) -> (name: String)
    ensures
        name@ == stem@ + "_thumb."@ + ext@,
{
    let mut name = String::from_str(stem);
    name.append("_thumb.");
    name.append(ext);
    name
}

/// The thumbnail file name for the image file name `n`: `{stem}_thumb.{ext}`,
/// or nothing where the name has no extension.
pub open spec fn name_thumbnail(n: Seq<char>) -> Option<Seq<char>> {
    match name_extension(n) {
        Some(ext) => Some(name_stem(n) + "_thumb."@ + ext),
        None => None,
    }
}

/// Whether the thumbnail of the image at `p` is known on every platform: for
/// a path without any `.`, a bare file name, and a Windows-style path
/// made of a directory, a backslash and a file name with an extension.
pub open spec fn thumbnail_known(p: Seq<char>) -> bool {
    ||| !p.contains('.')
    ||| is_bare_file_name(p)
    ||| is_backslash_path(p) && name_extension(backslash_name(p)) is Some
}

/// The thumbnail of the image at `p`, where `thumbnail_known(p)`: beside the
/// image, named after it.
pub open spec fn thumbnail_of(p: Seq<char>) -> Option<Seq<char>> {
    if is_bare_file_name(p) {
        name_thumbnail(p)
    } else if is_backslash_path(p) && name_extension(backslash_name(p)) is Some {
        Some(backslash_dir(p) + seq!['\\'] + name_thumbnail(backslash_name(p))->0)
    } else {
        None
    }
}

/// The thumbnail name built from a bare file name is itself a bare file name.
proof fn lemma_name_thumbnail_is_bare(p: Seq<char>)
    requires
        is_bare_file_name(p),
        name_extension(p) is Some,
    ensures
        is_bare_file_name(name_thumbnail(p)->0),
{
    lemma_last_of(p, '.');
    reveal_strlit("_thumb.");
    let k = last_of(p, '.');
    let stem = p.take(k);
    let ext = p.subrange(k + 1, p.len() as int);
    let mid = "_thumb."@;
    let t = stem + mid + ext;
    assert(mid =~= seq!['_', 't', 'h', 'u', 'm', 'b', '.']);
    assert(t.len() >= 7);
    assert forall|c: char| c == '/' || c == '\\' || c == ':' implies !t.contains(c) by {
        if t.contains(c) {
            let i = choose|i: int| 0 <= i < t.len() && t[i] == c;
            if i < stem.len() {
                assert(p[i] == c);
            } else if i < stem.len() + 7 {
                assert(mid[i - stem.len()] == c);
            } else {
                assert(p[i - stem.len() - 7 + k + 1] == c);
            }
            assert(p.contains(c));
        }
    }
    assert(t != seq!['.']);
    assert(t != seq!['.', '.']);
}

/// For a Windows-style path read as one file name (where `\` does not
/// separate), stem and extension are those of its name part, behind the
/// directory part and a backslash.
proof fn lemma_backslash_path_as_one_name(p: Seq<char>)
    requires
        is_backslash_path(p),
        name_extension(backslash_name(p)) is Some,
    ensures
        is_slash_free_name(p),
        name_extension(p) == name_extension(backslash_name(p)),
        name_stem(p) == backslash_dir(p) + seq!['\\'] + name_stem(backslash_name(p)),
{
    lemma_backslash_path(p);
    let d = backslash_dir(p);
    let n = backslash_name(p);
    let pre = d + seq!['\\'];
    assert(p =~= pre + n);
    lemma_last_of(n, '.');
    lemma_last_of_concat(pre, n, '.');
    let k = last_of(n, '.');
    assert(last_of(p, '.') == pre.len() + k);
    assert(p.subrange(pre.len() + k + 1, p.len() as int) =~= n.subrange(k + 1, n.len() as int));
    assert(p.take(pre.len() + k) =~= pre + n.take(k));
    assert(p.len() >= 3);
}

/// A path without any `.` has no thumbnail.
proof fn lemma_no_dot_no_thumbnail(p: Seq<char>)
    ensures
        !p.contains('.') ==> thumbnail_of(p) is None,
{
    if !p.contains('.') {
        lemma_last_of(p, '.');
        if is_backslash_path(p) {
            let n = backslash_name(p);
            lemma_backslash_path(p);
            lemma_last_of(n, '.');
            if last_of(n, '.') >= 0 {
                let i = last_of(n, '.');
                assert(p[backslash_dir(p).len() + 1 + i] == '.');
            }
        }
    }
}

/// The path of the thumbnail of the image at `image_path`: the file
/// `{stem}_thumb.{ext}` in the same directory; nothing where the path has no
/// stem, no extension or no parent. Stated exactly (`thumbnail_of`) for paths
/// that every platform splits alike into that result (`thumbnail_known`):
/// paths without `.`, bare file names, and Windows-style paths such as
/// `C:\Users\me\Images\a.png`.
pub fn thumbnail_path(image_path: &str) -> (thumb: Option<String>)
    ensures
        thumbnail_known(image_path@) ==> opt_view(thumb) == thumbnail_of(image_path@),
{
    proof {
        let p = image_path@;
        lemma_no_dot_no_thumbnail(p);
        if is_backslash_path(p) && name_extension(backslash_name(p)) is Some {
            lemma_backslash_path_as_one_name(p);
        }
    }
    let stem = match path_file_stem(image_path) {
        Some(s) => s,
        None => return None,
    };
    let ext = match path_extension(image_path) {
        Some(e) => e,
        None => return None,
    };
    let parent = match path_parent(image_path) {
        Some(p) => p,
        None => return None,
    };
    let name = thumbnail_file_name(stem.as_str(), ext.as_str());
    proof {
        let p = image_path@;
        if is_bare_file_name(p) {
            lemma_name_thumbnail_is_bare(p);
            assert(is_single_component(name@));
        } else if is_backslash_path(p) && name_extension(backslash_name(p)) is Some {
            let n = backslash_name(p);
            lemma_name_thumbnail_is_bare(n);
            lemma_backslash_path_as_one_name(p);
            lemma_backslash_dir(backslash_dir(p));
            if !path_separator('\\') {
                assert(name@ =~= backslash_dir(p) + seq!['\\'] + name_thumbnail(n)->0);
                assert(!name@.contains('/')) by {
                    if name@.contains('/') {
                        let i = choose|i: int| 0 <= i < name@.len() && name@[i] == '/';
                        let d = backslash_dir(p);
                        if i < d.len() {
                            assert(d.contains('/'));
                        } else if i > d.len() {
                            assert((name_thumbnail(n)->0)[i - d.len() - 1] == '/');
                            assert((name_thumbnail(n)->0).contains('/'));
                        }
                    }
                }
            }
        }
    }
    Some(path_join(parent.as_str(), name.as_str()))
}

/// Whether `k` is the first position in `records` of the record with `id`.
pub open spec fn first_with_id(records: Seq<ClipboardRecord>, id: i64, k: int) -> bool {
    &&& 0 <= k < records.len()
    &&& records[k].id == id
    &&& forall|j: int| 0 <= j < k ==> #[trigger] records[j].id != id
}

/// The image files to remove with the item `id`: the image of the first
/// record with that id, followed by its thumbnail (`thumbnail_path`) where
/// one can be named; nothing where no such record holds an image. Stated
/// exactly where the thumbnail is known on every platform (`thumbnail_known`).
pub fn image_files_to_remove(records: &Vec<ClipboardRecord>, id: i64) -> (files: Vec<String>)
    ensures
        (forall|k: int| 0 <= k < records@.len() ==> #[trigger] records@[k].id != id)
            ==> files@.len() == 0,
        forall|k: int|
            #[trigger] first_with_id(records@, id, k) ==> match records@[k].image_path {
                None => files@.len() == 0,
                Some(p) => {
                    &&& 1 <= files@.len() <= 2
                    &&& files@[0]@ == p@
                    &&& thumbnail_known(p@) ==> match thumbnail_of(p@) {
                        Some(t) => files@.len() == 2 && files@[1]@ == t,
                        None => files@.len() == 1,
                    }
                },
            },
{
    let mut i: usize = 0;
    while i < records.len()
        invariant
            i <= records@.len(),
            forall|j: int| 0 <= j < i ==> #[trigger] records@[j].id != id,
        decreases records@.len() - i,
    {
        if records[i].id == id {
            let mut files: Vec<String> = Vec::new();
            match &records[i].image_path {
                Some(path) => {
                    files.push(path.clone());
                    match thumbnail_path(path.as_str()) {
                        Some(thumb) => files.push(thumb),
                        None => {},
                    }
                },
                None => {},
            }
            proof {
                assert(first_with_id(records@, id, i as int));
                assert forall|k: int| #[trigger] first_with_id(records@, id, k) implies k == i by {
                    if k < i {
                        assert(records@[k].id != id);
                    }
                    if k > i {
                        assert(records@[i as int].id != id);
                    }
                }
            }
            return files;
        }
        i = i + 1;
    }
    Vec::new()
}

} // verus!
