//! The photos the camera takes.
use std::path::PathBuf;
use vstd::prelude::*;
use crate::text::{
    blank, cut, decimal, decimal_value, field, head, law_blank_ends_do_not_matter,
    law_file_name_of_joined_path, lemma_cut, lemma_decimal, lemma_decimal_trimmed,
    lemma_first_at_bounded, lemma_read_is_written, lemma_trimmed_ends, lemma_uncut, lemma_written,
    parse_decimal, path_file_name, plain_name, tail, trim, trimmed, written,
};

verus! {

/// `std::path::PathBuf`: an owned path, whose contents are not looked into here.
#[verifier::external_type_specification]
#[verifier::external_body]
pub struct ExPathBuf(std::path::PathBuf);

/// The path that `PathBuf::from` makes of a text.
pub uninterp spec fn path_of(text: Seq<char>) -> PathBuf;

/// Calls `PathBuf::from` on `text`. The path it returns is a function of the text alone.
#[verifier::external_body]
fn path_from(text: &str) -> (path: PathBuf)
    ensures
        path == path_of(text@),
{
    PathBuf::from(text)
}

/// The text that `Path::to_string_lossy` shows of a path.
pub uninterp spec fn shown_path(path: PathBuf) -> Seq<char>;

/// Calls `Path::to_string_lossy` and takes the text it shows, which is a function of the path
/// alone. A path that was made of a text shows that text; in any other, what is not Unicode is
/// shown as replacement characters.
#[verifier::external_body]
fn path_text(path: &PathBuf) -> (text: String)
    ensures
        text@ == shown_path(*path),
        forall|origin: Seq<char>| *path == #[trigger] path_of(origin) ==> text@ == origin,
{
    path.to_string_lossy().into_owned()
}

/// Whether `std::path::is_separator` holds of a character: whether it stands between the
/// components of a path, on the target that the crate is built for.
pub uninterp spec fn separates(c: char) -> bool;

/// `std::path::is_separator` is a function of the character alone on any one target.
pub assume_specification[ std::path::is_separator ](c: char) -> (separator: bool)
    ensures
        separator == separates(c),
;

/// Whether `/` alone structures the path that shows `text`. It does in every path where `\` is an
/// ordinary character; elsewhere, in a path without `\` and `:` that does not begin with two
/// separators, since drives and shares are named with these.
pub open spec fn slashed(text: Seq<char>) -> bool {
    ||| !separates('\\')
    ||| {
        &&& !text.contains('\\')
        &&& !text.contains(':')
        &&& !(text.len() >= 2 && text[0] == '/' && text[1] == '/')
    }
}

/// The last component that `Path::file_name` finds in a path, as a path of its own.
pub uninterp spec fn last_part(path: PathBuf) -> Option<PathBuf>;

/// Whether `part` shows the file name in `text`, or is none where there is none.
pub open spec fn shows_file_name(part: Option<PathBuf>, text: Seq<char>) -> bool {
    match path_file_name(text) {
        Some(name) => part matches Some(part) && shown_path(part) == name,
        None => part is None,
    }
}

/// Calls `Path::file_name` and takes the component it finds as a path of its own. It is a function
/// of the path alone. Where `/` alone structures the path, what it shows is the file name in what
/// the path shows, and in the text the path was made of: the last component, with trailing
/// separators and `.` passed over, and none where the path ends in `..`. How drives and shares are
/// read is left unsaid.
#[verifier::external_body]
fn file_part(path: &PathBuf) -> (part: Option<PathBuf>)
    ensures
        part == last_part(*path),
        slashed(shown_path(*path)) ==> shows_file_name(part, shown_path(*path)),
        forall|origin: Seq<char>|
            *path == #[trigger] path_of(origin) && slashed(origin) ==> shows_file_name(
                part,
                origin,
            ),
{
    path.file_name().map(PathBuf::from)
}

/// `<PathBuf as Clone>::clone` returns the same path.
pub assume_specification[ <PathBuf as Clone>::clone ](path: &PathBuf) -> (copy: PathBuf)
    ensures
        copy == *path,
;

/// What stands between the parts of a photo report.
pub const SEPARATOR: char = '\u{1f}';

/// A photo the camera took: a JPEG under the app's cache directory.
///
/// The file is the app's to keep, move, or delete; the photo library is never touched, so no
/// Photos permission is involved.
#[derive(Debug, PartialEq, Eq)]
pub struct Photo {
    pub path: PathBuf,
    pub width: u32,
    pub height: u32,
}

impl Clone for Photo {
    fn clone(&self) -> (copy: Self)
        ensures
            copy == *self,
    {
        Photo { path: self.path.clone(), width: self.width, height: self.height }
    }
}

/// The number of pixels that a field of a photo report gives: 0 where the field is missing or is
/// not a number that 32 bits hold.
pub open spec fn pixels(field: Option<Seq<char>>) -> u32 {
    match field {
        Some(text) => match decimal_value(trimmed(text)) {
            Some(value) => value,
            None => 0,
        },
        None => 0,
    }
}

/// The photo that a photo report tells of: its path, then its width and its height. A report
/// without a path tells of none.
pub open spec fn reported_photo(text: Seq<char>) -> Option<Photo> {
    if head(text, SEPARATOR).len() == 0 {
        None
    } else {
        Some(
            Photo {
                path: path_of(head(text, SEPARATOR)),
                width: pixels(field(text, SEPARATOR, 1)),
                height: pixels(field(text, SEPARATOR, 2)),
            },
        )
    }
}

/// What is shown as the name of the file at `path`: its file name, or nothing where it has none.
pub open spec fn shown_name(path: Seq<char>) -> Seq<char> {
    match path_file_name(path) {
        Some(name) => name,
        None => Seq::empty(),
    }
}

/// What `text` holds as a view, for an optional text.
spec fn seen(text: Option<&str>) -> Option<Seq<char>> {
    match text {
        Some(text) => Some(text@),
        None => None,
    }
}

/// Reads the first of the fields in `rest` as a number of pixels, and hands back the fields after
/// it.
fn next_pixels(rest: Option<&str>) -> (next: (u32, Option<&str>))
    ensures
        match rest {
            Some(rest) => {
                &&& next.0 == pixels(Some(head(rest@, SEPARATOR)))
                &&& seen(next.1) == tail(rest@, SEPARATOR)
            },
            None => next.0 == 0 && next.1 is None,
        },
{
    match rest {
        Some(rest) => {
            let (first, after) = cut(rest, SEPARATOR);
            let value: u32 = match parse_decimal(trim(first)) {
                Some(value) => value,
                None => 0,
            };
            (value, after)
        },
        None => (0, None),
    }
}

impl Photo {
    /// Parses a `report::PHOTO` payload: the path, then the pixel size, 0x1F-separated. A payload
    /// without a size is still a photo; the size then reads 0 by 0.
    pub fn from_report(text: &str) -> (photo: Option<Photo>)
        ensures
            photo == reported_photo(text@),
    {
        let (path, sizes) = cut(text, SEPARATOR);
        if path.is_empty() {
            return None;
        }
        let (width, rest) = next_pixels(sizes);
        let (height, _) = next_pixels(rest);
        proof {
            reveal_with_fuel(field, 3);
        }
        Some(Photo { path: path_from(path), width, height })
    }

    /// The name shown of the file: the last component of its path, or nothing where the path has
    /// none.
    pub open spec fn spec_file_name(self) -> Seq<char> {
        match last_part(self.path) {
            Some(part) => shown_path(part),
            None => Seq::empty(),
        }
    }

    /// The file's name, for a caption. Where `/` alone structures the path, it is the file name in
    /// what the path shows; and so a plain name behind any directory is given back.
    pub fn file_name(&self) -> (name: String)
        ensures
            name@ == self.spec_file_name(),
            slashed(shown_path(self.path)) ==> name@ == shown_name(shown_path(self.path)),
            forall|path: Seq<char>|
                self.path == #[trigger] path_of(path) && slashed(path) ==> name@ == shown_name(
                    path,
                ),
            forall|dir: Seq<char>, plain: Seq<char>|
                {
                    &&& plain_name(plain)
                    &&& shown_path(self.path) == #[trigger] (dir + seq!['/'] + plain)
                    &&& slashed(shown_path(self.path))
                } ==> name@ == plain,
    {
        proof {
            assert forall|dir: Seq<char>, plain: Seq<char>|
                plain_name(plain) && shown_path(self.path) == #[trigger] (dir + seq!['/']
                    + plain) implies shown_name(shown_path(self.path)) == plain by {
                law_file_name_of_joined_path(dir, plain);
            }
        }
        match file_part(&self.path) {
            Some(part) => path_text(&part),
            None => String::new(),
        }
    }
}

/// Whether `/` is the only character that separates the components of a path, as it is on every
/// target with a camera.
pub fn only_slash_separates() -> (only: bool)
    ensures
        only == (separates('/') && !separates('\\')),
{
    std::path::is_separator('/') && !std::path::is_separator('\\')
}

/// The text of a photo report: the path, the width and the height, with separators between them.
pub open spec fn photo_payload(path: Seq<char>, width: Seq<char>, height: Seq<char>) -> Seq<char> {
    path + seq![SEPARATOR] + width + seq![SEPARATOR] + height
}

/// A report gives back what was put into it: a path that is not empty and holds no separator, and
/// any two sizes written in decimal.
pub proof fn law_report_gives_back_photo(path: Seq<char>, width: u32, height: u32)
    requires
        path.len() > 0,
        !path.contains(SEPARATOR),
    ensures
        reported_photo(
            photo_payload(path, decimal(width as nat), decimal(height as nat)),
        ) == Some(Photo { path: path_of(path), width, height }),
{
    let w = decimal(width as nat);
    let h = decimal(height as nat);
    let rest = w + seq![SEPARATOR] + h;
    let text = photo_payload(path, w, h);
    reveal_with_fuel(field, 3);
    lemma_decimal(width as nat);
    lemma_decimal(height as nat);
    assert(text =~= path + seq![SEPARATOR] + rest);
    lemma_cut(path, SEPARATOR, rest);
    lemma_cut(w, SEPARATOR, h);
    lemma_uncut(h, SEPARATOR);
    lemma_decimal_trimmed(width as nat);
    lemma_decimal_trimmed(height as nat);
}

/// A payload that is only a path is a photo all the same, and its size reads 0 by 0.
pub proof fn law_photo_without_size(path: Seq<char>)
    requires
        path.len() > 0,
        !path.contains(SEPARATOR),
    ensures
        reported_photo(path) == Some(Photo { path: path_of(path), width: 0, height: 0 }),
{
    reveal_with_fuel(field, 3);
    lemma_uncut(path, SEPARATOR);
}

/// A report tells of no photo exactly when it is empty or begins with a separator; what stands
/// where the size belongs never matters to that.
pub proof fn law_only_a_missing_path_is_no_photo(text: Seq<char>)
    ensures
        reported_photo(text) is None <==> text.len() == 0 || text[0] == SEPARATOR,
{
    lemma_first_at_bounded(text, SEPARATOR);
}

/// A size is read from every way of writing it, with or without white space around it.
pub proof fn law_written_sizes_are_read(
    before: Seq<char>,
    after: Seq<char>,
    plus: bool,
    count: nat,
    size: u32,
)
    requires
        blank(before),
        blank(after),
    ensures
        pixels(Some(before + written(plus, count, size as nat) + after)) == size,
{
    lemma_written(plus, count, size);
    law_blank_ends_do_not_matter(before, written(plus, count, size as nat), after);
}

/// A size other than 0 is read only from a way of writing it; whatever else stands there, or where
/// nothing does, the size is 0.
pub proof fn law_only_written_sizes_are_read(text: Seq<char>) -> (way: (
    Seq<char>,
    Seq<char>,
    bool,
    nat,
))
    ensures
        pixels(None) == 0,
        pixels(Some(text)) != 0 ==> {
            &&& blank(way.0)
            &&& blank(way.1)
            &&& text == way.0 + written(way.2, way.3, pixels(Some(text)) as nat) + way.1
        },
{
    let ends = lemma_trimmed_ends(text);
    let way = lemma_read_is_written(trimmed(text));
    (ends.0, ends.1, way.0, way.1)
}

/// A photo is read field by field: the path is the first, the width the second and the height the
/// third, and what follows a third separator does not matter.
pub proof fn law_photo_is_read_field_by_field(
    text: &str,
    photo: Option<Photo>,
    path: Seq<char>,
    width: Seq<char>,
    height: Seq<char>,
    more: Seq<char>,
)
    requires
        call_ensures(Photo::from_report, (text,), photo),
        path.len() > 0,
        !path.contains(SEPARATOR),
        !width.contains(SEPARATOR),
        !height.contains(SEPARATOR),
        more.len() > 0 ==> more[0] == SEPARATOR,
        text@ == photo_payload(path, width, height) + more,
    ensures
        photo is Some,
        photo->0.path == path_of(path),
        photo->0.width == pixels(Some(width)),
        photo->0.height == pixels(Some(height)),
{
    reveal_with_fuel(field, 3);
    let last = height + more;
    let rest = width + seq![SEPARATOR] + last;
    assert(text@ =~= path + seq![SEPARATOR] + rest);
    lemma_cut(path, SEPARATOR, rest);
    lemma_cut(width, SEPARATOR, last);
    if more.len() > 0 {
        assert(last =~= height + seq![SEPARATOR] + more.skip(1));
        lemma_cut(height, SEPARATOR, more.skip(1));
    } else {
        assert(last =~= height);
        lemma_uncut(height, SEPARATOR);
    }
}

/// A report that ends before a size is a photo all the same, and reads 0 for what is missing; one
/// without a path is none.
pub proof fn law_photo_may_lack_its_size(
    text: &str,
    photo: Option<Photo>,
    path: Seq<char>,
    width: Seq<char>,
)
    requires
        call_ensures(Photo::from_report, (text,), photo),
        !path.contains(SEPARATOR),
        !width.contains(SEPARATOR),
    ensures
        text@ == path && path.len() > 0 ==> photo == Some(
            Photo { path: path_of(path), width: 0, height: 0 },
        ),
        text@ == path + seq![SEPARATOR] + width && path.len() > 0 ==> photo == Some(
            Photo { path: path_of(path), width: pixels(Some(width)), height: 0 },
        ),
        text@.len() == 0 || text@[0] == SEPARATOR ==> photo is None,
{
    reveal_with_fuel(field, 3);
    if path.len() > 0 {
        lemma_uncut(path, SEPARATOR);
        lemma_uncut(width, SEPARATOR);
        lemma_cut(path, SEPARATOR, width);
    }
    law_only_a_missing_path_is_no_photo(text@);
}

/// The file's name is the text of the component that the path ends in, all of it, and nothing where
/// it ends in none.
pub proof fn law_file_name_is_the_last_part(photo: Photo, name: String)
    requires
        call_ensures(Photo::file_name, (&photo,), name),
    ensures
        last_part(photo.path) matches Some(part) ==> name@ == shown_path(part),
        last_part(photo.path) is None ==> name@.len() == 0,
{
}

/// A plain name behind any directory that a path shows is the file's name, whatever the photo's
/// size.
pub proof fn law_file_name_behind_any_directory(
    photo: Photo,
    name: String,
    dir: Seq<char>,
    plain: Seq<char>,
)
    requires
        call_ensures(Photo::file_name, (&photo,), name),
        plain_name(plain),
    ensures
        slashed(shown_path(photo.path)) && shown_path(photo.path) == dir + seq!['/'] + plain
            ==> name@ == plain,
{
}

/// `/` alone separates exactly if it separates and `\` does not.
pub proof fn law_which_separators_there_are(only: bool)
    requires
        call_ensures(only_slash_separates, (), only),
    ensures
        only ==> separates('/') && !separates('\\'),
        separates('/') && !only ==> separates('\\'),
{
}

/// A copy of a photo is that photo.
pub proof fn law_copied_photos(photo: Photo, copy: Photo)
    requires
        call_ensures(Photo::clone, (&photo,), copy),
    ensures
        copy.path == photo.path,
        copy.width == photo.width,
        copy.height == photo.height,
{
}

} // verus!
