//! Summaries of files and folders: a readable size, a kind derived from the
//! MIME type, the extension, and the modification time as an RFC 3339 text.

use vstd::prelude::*;
use crate::text::{decimal, push_decimal, push_zero_padded, zero_padded};

verus! {

pub const KB: u64 = 1024;

pub const MB: u64 = 1024 * 1024;

pub const GB: u64 = 1024 * 1024 * 1024;

/// Largest modification time, in milliseconds since the Unix epoch, that can
/// be rendered as a date: the last millisecond of year 262142, chrono's last
/// representable year.
pub const MAX_TIMESTAMP_MILLIS: u64 = 8_210_266_876_799_999;

/// `s` begins with `p`.
pub open spec fn starts_with(s: Seq<char>, p: Seq<char>) -> bool {
    p.len() <= s.len() && s.subrange(0, p.len() as int) == p
}

/// `size / unit` in hundredths, rounded to the nearest, ties to even.
pub open spec fn rounded_hundredths(size: nat, unit: nat) -> nat
    recommends
        unit > 0,
{
    let q = (size * 100) as int / (unit as int);
    let r = (size * 100) as int % (unit as int);
    if 2 * r > unit || (2 * r == unit && q % 2 == 1) {
        (q + 1) as nat
    } else {
        q as nat
    }
}

/// `h` hundredths written with two decimals, such as `1.50`.
pub open spec fn two_decimals(h: nat) -> Seq<char> {
    decimal(h / 100) + seq!['.'] + zero_padded(h % 100, 2)
}

/// A byte count as shown to the user: in GB, MB or KB with two decimals from
/// one unit up, else in bytes.
pub open spec fn size_text(size: nat) -> Seq<char> {
    if size >= GB {
        two_decimals(rounded_hundredths(size, GB as nat)) + " GB"@
    } else if size >= MB {
        two_decimals(rounded_hundredths(size, MB as nat)) + " MB"@
    } else if size >= KB {
        two_decimals(rounded_hundredths(size, KB as nat)) + " KB"@
    } else {
        decimal(size) + " bytes"@
    }
}

/// Appends `size / unit` with two decimals.
fn push_two_decimals(out: &mut String, size: u64, unit: u64)
    requires
        unit >= KB,
    ensures
        final(out)@ == old(out)@ + two_decimals(rounded_hundredths(size as nat, unit as nat)),
{
    let scaled: u128 = size as u128 * 100;
    let u: u128 = unit as u128;
    let q: u128 = scaled / u;
    let rem: u128 = scaled % u;
    assert(q * 1024 <= scaled) by (nonlinear_arith)
        requires
            q == scaled / u,
            u >= 1024,
    ;
    let h: u128 = if 2 * rem > u || (2 * rem == u && q % 2 == 1) {
        q + 1
    } else {
        q
    };
    assert(h == rounded_hundredths(size as nat, unit as nat));
    let whole: u64 = (h / 100) as u64;
    let frac: u64 = (h % 100) as u64;
    push_decimal(out, whole);
    out.append(".");
    proof {
        reveal_strlit(".");
    }
    push_zero_padded(out, frac, 2);
    assert(final(out)@ =~= old(out)@ + two_decimals(h as nat));
}

/// A byte count as shown to the user: `512 bytes`, `1.50 KB`, `2.00 MB`,
/// `1.00 GB`. Two decimals are the exact quotient rounded to the nearest
/// hundredth, ties to even.
pub fn format_size(size: u64) -> (r: String)
    ensures
        r@ == size_text(size as nat),
{
    let mut out = String::new();
    if size >= GB {
        push_two_decimals(&mut out, size, GB);
        out.append(" GB");
    } else if size >= MB {
        push_two_decimals(&mut out, size, MB);
        out.append(" MB");
    } else if size >= KB {
        push_two_decimals(&mut out, size, KB);
        out.append(" KB");
    } else {
        push_decimal(&mut out, size);
        out.append(" bytes");
    }
    assert(out@ =~= size_text(size as nat));
    out
}

/// The characters of `s`, in order.
pub fn chars_of(s: &str) -> (r: Vec<char>)
    ensures
        r@ == s@,
{
    broadcast use vstd::string::axiom_spec_iter, vstd::string::next_postcondition;

    let mut it = s.chars();
    let mut out: Vec<char> = Vec::new();
    loop
        invariant
            out@ + vstd::std_specs::iter::IteratorSpec::remaining(&it) == s@,
            vstd::std_specs::iter::IteratorSpec::obeys_prophetic_iter_laws(&it),
            vstd::std_specs::iter::IteratorSpec::decrease(&it) is Some,
        ensures
            out@ == s@,
        decreases vstd::std_specs::iter::IteratorSpec::decrease(&it)->0,
    {
        let ghost before = vstd::std_specs::iter::IteratorSpec::remaining(&it);
        match it.next() {
            Some(c) => {
                out.push(c);
                assert(out@ + vstd::std_specs::iter::IteratorSpec::remaining(&it) =~= s@) by {
                    assert(before =~= seq![c] + vstd::std_specs::iter::IteratorSpec::remaining(&it));
                }
            },
            None => {
                assert(out@ =~= s@);
                break ;
            },
        }
    }
    out
}

/// Whether `s` begins with the characters of `p`.
fn has_prefix(s: &Vec<char>, p: &str) -> (r: bool)
    ensures
        r == starts_with(s@, p@),
{
    let pc = chars_of(p);
    if pc.len() > s.len() {
        return false;
    }
    let mut i: usize = 0;
    while i < pc.len()
        invariant
            pc@ == p@,
            pc.len() <= s.len(),
            0 <= i <= pc.len(),
            s@.subrange(0, i as int) == pc@.subrange(0, i as int),
        decreases pc.len() - i,
    {
        if s[i] != pc[i] {
            assert(s@.subrange(0, pc.len() as int)[i as int] != pc@[i as int]);
            return false;
        }
        i = i + 1;
        assert(s@.subrange(0, i as int) =~= pc@.subrange(0, i as int));
    }
    assert(pc@.subrange(0, i as int) =~= pc@);
    true
}

/// Whether `s` holds exactly the characters of `p`.
pub(crate) fn equals(s: &Vec<char>, p: &str) -> (r: bool)
    ensures
        r == (s@ == p@),
{
    let prefix = has_prefix(s, p);
    let pc = chars_of(p);
    if prefix && s.len() == pc.len() {
        assert(s@ =~= s@.subrange(0, p@.len() as int));
        true
    } else {
        proof {
            if s@ == p@ {
                assert(s@.subrange(0, p@.len() as int) =~= p@);
            }
        }
        false
    }
}

/// The extension that `std::path::Path::extension` gives for a file named
/// `name`, or nothing when it gives none.
pub uninterp spec fn path_extension(name: Seq<char>) -> Seq<char>;

/// Relies on `std::path::Path::extension` (then `to_str`, which cannot fail
/// on a path made from a `str`): the text after the last dot of the final
/// component, absent when that component holds no dot but a leading one.
#[verifier::external_body]
fn file_extension(name: &str) -> (r: String)
    ensures
        r@ == path_extension(name@),
        !name@.contains('.') ==> r@.len() == 0,
{
    std::path::Path::new(name).extension().and_then(|e| e.to_str()).unwrap_or("").to_string()
}

/// The text that `str::to_lowercase` gives for `s`.
pub uninterp spec fn lowercase_of(s: Seq<char>) -> Seq<char>;

/// Relies on `str::to_lowercase`: the Unicode lower case of each character;
/// the empty text stays empty.
#[verifier::external_body]
fn lowercase(s: &str) -> (r: String)
    ensures
        r@ == lowercase_of(s@),
        s@.len() == 0 ==> r@.len() == 0,
{
    s.to_lowercase()
}

/// The kind of a file with this MIME type.
pub open spec fn kind_of_mime(mime: Seq<char>) -> Seq<char> {
    if starts_with(mime, "audio/"@) {
        "Audio"@
    } else if starts_with(mime, "video/"@) {
        "Video"@
    } else if starts_with(mime, "text/"@) || mime == "application/pdf"@ {
        "Text"@
    } else if mime == "application/x-msdownload"@ || mime == "application/x-executable"@ {
        "Executable"@
    } else if starts_with(mime, "image/"@) {
        "Image"@
    } else {
        "Other"@
    }
}

/// The kind and the lower-case extension of an item; a directory has the
/// kind `Directory` and no extension.
pub open spec fn type_and_extension(name: Seq<char>, mime: Seq<char>) -> (Seq<char>, Seq<char>) {
    if mime == "directory"@ {
        ("Directory"@, Seq::empty())
    } else {
        (kind_of_mime(mime), lowercase_of(path_extension(name)))
    }
}

/// The kind of an item from its MIME type, and its extension in lower case.
pub fn get_item_type_and_extension(name: &str, mime_type: &str) -> (r: (String, String))
    ensures
        (r.0@, r.1@) == type_and_extension(name@, mime_type@),
{
    let mime = chars_of(mime_type);
    if equals(&mime, "directory") {
        return (String::from_str("Directory"), String::new());
    }
    let ext = file_extension(name);
    let extension = lowercase(ext.as_str());
    let kind = if has_prefix(&mime, "audio/") {
        "Audio"
    } else if has_prefix(&mime, "video/") {
        "Video"
    } else if has_prefix(&mime, "text/") || equals(&mime, "application/pdf") {
        "Text"
    } else if equals(&mime, "application/x-msdownload") || equals(
        &mime,
        "application/x-executable",
    ) {
        "Executable"
    } else if has_prefix(&mime, "image/") {
        "Image"
    } else {
        "Other"
    };
    (String::from_str(kind), extension)
}

/// A file or folder as the user interface describes it.
#[derive(Debug)]
pub struct ItemInput {
    pub name: String,
    pub path: String,
    /// MIME type, or `directory`.
    pub item_type: String,
    /// Size in bytes.
    pub size: u64,
    /// Modification time in milliseconds since the Unix epoch.
    pub last_modified: u64,
    pub contents: Option<Vec<u8>>,
    pub is_directory: bool,
    pub children: Option<Vec<ItemInput>>,
}

/// The summary of one file or folder.
#[derive(Debug)]
pub struct ItemDetails {
    pub id: String,
    pub name: String,
    pub path: String,
    pub created: String,
    pub modified: String,
    pub accessed: String,
    pub size: String,
    pub item_type: String,
    pub extension: String,
    pub is_directory: bool,
    pub children: Option<Vec<ItemDetails>>,
}

/// The RFC 3339 text that chrono gives for the UTC instant this many
/// milliseconds after the Unix epoch.
pub uninterp spec fn rfc3339_of_millis(millis: u64) -> Seq<char>;

/// Relies on chrono's `DateTime::<Utc>::from_timestamp_millis`, which gives a
/// date for every instant up to the end of year 262142, and
/// `DateTime::to_rfc3339`, which renders it as RFC 3339 text and cannot fail.
#[verifier::external_body]
fn format_time(millis: u64) -> (r: Option<String>)
    ensures
        millis <= MAX_TIMESTAMP_MILLIS ==> r is Some,
        r matches Some(s) ==> s@ == rfc3339_of_millis(millis),
{
    match chrono::DateTime::<chrono::Utc>::from_timestamp_millis(millis as i64) {
        Some(datetime) => Some(datetime.to_rfc3339()),
        None => None,
    }
}

/// Every modification time that the summary of `item` renders is within
/// range: its own and, for a directory, those of its children.
pub open spec fn times_in_range(item: ItemInput) -> bool
    decreases item,
{
    &&& item.last_modified <= MAX_TIMESTAMP_MILLIS
    &&& item.is_directory && item.children is Some ==> forall|i: int|
        #![trigger item.children->0@[i]]
        0 <= i < item.children->0.len() ==> times_in_range(item.children->0@[i])
}

/// Each child of a folder is smaller than the folder.
proof fn lemma_child_decreases(item: ItemInput, k: int)
    requires
        item.children is Some,
        0 <= k < item.children->0.len(),
    ensures
        decreases_to!(item => item.children->0@[k]),
{
    assert(decreases_to!(item => item.children));
    assert(decreases_to!(item.children => item.children->0));
    assert(decreases_to!(item.children->0 => item.children->0@));
    assert(decreases_to!(item.children->0@ => item.children->0@[k]));
}

/// A folder whose times are in range has children whose times are.
proof fn lemma_child_times_in_range(item: ItemInput, k: int)
    requires
        times_in_range(item),
        item.is_directory,
        item.children is Some,
        0 <= k < item.children->0.len(),
    ensures
        times_in_range(item.children->0@[k]),
{
    lemma_child_decreases(item, k);
}

/// `out` is the summary of `input`: the path as identifier, the modification
/// time for all three dates, the readable size, the kind and extension, and,
/// for a directory with children, the summary of each child in order.
pub open spec fn analyzed(input: ItemInput, out: ItemDetails) -> bool
    decreases input,
{
    let te = type_and_extension(input.name@, input.item_type@);
    &&& out.id@ == input.path@
    &&& out.name@ == input.name@
    &&& out.path@ == input.path@
    &&& out.created@ == rfc3339_of_millis(input.last_modified)
    &&& out.modified@ == out.created@
    &&& out.accessed@ == out.created@
    &&& out.size@ == size_text(input.size as nat)
    &&& out.item_type@ == te.0
    &&& out.extension@ == te.1
    &&& out.is_directory == input.is_directory
    &&& if input.is_directory && input.children is Some {
        &&& out.children is Some
        &&& out.children->0.len() == input.children->0.len()
        &&& forall|i: int|
            #![trigger input.children->0@[i]]
            0 <= i < input.children->0.len() ==> analyzed(
                input.children->0@[i],
                out.children->0@[i],
            )
    } else {
        out.children is None
    }
}

/// Summarises one file or folder, and the children of a folder.
pub fn analyze_item(item: ItemInput) -> (r: Result<ItemDetails, String>)
    requires
        times_in_range(item),
    ensures
        r matches Ok(d) && analyzed(item, d),
    decreases item,
{
    let ghost whole = item;
    let ItemInput {
        name,
        path,
        item_type,
        size,
        last_modified,
        contents: _,
        is_directory,
        children,
    } = item;
    let id = path.clone();
    let created = match format_time(last_modified) {
        Some(text) => text,
        None => {
            return Err(String::from_str("modification time out of range"));
        },
    };
    let modified = created.clone();
    let accessed = created.clone();
    let size = format_size(size);
    let (item_type, extension) = get_item_type_and_extension(name.as_str(), item_type.as_str());
    let analyzed_children = if is_directory {
        match children {
            Some(mut rest) => {
                let ghost all = rest@;
                assert(whole.children == Some(rest));
                let mut done: Vec<ItemDetails> = Vec::new();
                while rest.len() > 0
                    invariant
                        whole == item,
                        whole.children is Some,
                        all == whole.children->0@,
                        whole.is_directory,
                        times_in_range(whole),
                        done.len() <= all.len(),
                        rest@ == all.subrange(done.len() as int, all.len() as int),
                        forall|j: int| 0 <= j < done.len() ==> #[trigger] analyzed(all[j], done@[j]),
                    decreases rest.len(),
                {
                    let child = rest.remove(0);
                    let ghost k = done.len() as int;
                    assert(child == all[k]);
                    proof {
                        lemma_child_times_in_range(whole, k);
                        lemma_child_decreases(whole, k);
                    }
                    let d = analyze_item(child)?;
                    done.push(d);
                }
                assert(done.len() == all.len());
                assert forall|i: int|
                    #![trigger whole.children->0@[i]]
                    0 <= i < whole.children->0.len() implies analyzed(
                        whole.children->0@[i],
                        done@[i],
                    ) by {
                    assert(all[i] == whole.children->0@[i]);
                }
                Some(done)
            },
            None => None,
        }
    } else {
        None
    };
    let details = ItemDetails {
        id,
        name,
        path,
        created,
        modified,
        accessed,
        size,
        item_type,
        extension,
        is_directory,
        children: analyzed_children,
    };
    Ok(details)
}

/// Summarises each item, in order.
pub fn analyze_files_and_folders(items: Vec<ItemInput>) -> (r: Result<Vec<ItemDetails>, String>)
    requires
        forall|i: int| 0 <= i < items.len() ==> #[trigger] times_in_range(items@[i]),
    ensures
        r matches Ok(out) && out.len() == items.len() && forall|i: int|
            0 <= i < items.len() ==> #[trigger] analyzed(items@[i], out@[i]),
{
    let ghost all = items@;
    let mut rest = items;
    let mut done: Vec<ItemDetails> = Vec::new();
    while rest.len() > 0
        invariant
            forall|i: int| 0 <= i < all.len() ==> #[trigger] times_in_range(all[i]),
            done.len() <= all.len(),
            rest@ == all.subrange(done.len() as int, all.len() as int),
            forall|j: int| 0 <= j < done.len() ==> #[trigger] analyzed(all[j], done@[j]),
        decreases rest.len(),
    {
        let item = rest.remove(0);
        assert(item == all[done.len() as int]);
        let d = analyze_item(item)?;
        done.push(d);
    }
    Ok(done)
}

} // verus!
