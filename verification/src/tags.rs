//! Metadata, and how it is read out of a list of Vorbis comments.
//!
//! A comment is a pair of a field name and a value. Names are matched without
//! regard to the case of their ASCII letters. The title and the album are the
//! values of the first `TITLE` and `ALBUM` comment. All `ARTIST` values are
//! joined by a comma and a space. A track number that is no number is no
//! error: the field is then absent.

use crate::container::{text_of, LilacView};
use crate::text::{eq_ignore_ascii_case, join, joined, parse_u32, parsed_u32, same_ignoring_case};
use vstd::prelude::*;

verus! {

/// The descriptive fields of a container, as plain mathematical values.
pub struct MetadataView {
    pub title: Option<Seq<char>>,
    pub artist: Option<Seq<char>>,
    pub year: Option<i32>,
    pub album: Option<Seq<char>>,
    pub track: Option<u32>,
}

/// The descriptive fields of a container. Each may be absent.
#[derive(Debug, Clone, PartialEq, Eq)]
pub struct Metadata {
    pub title: Option<String>,
    pub artist: Option<String>,
    pub year: Option<i32>,
    pub album: Option<String>,
    pub track: Option<u32>,
}

impl View for Metadata {
    type V = MetadataView;

    open spec fn view(&self) -> MetadataView {
        MetadataView {
            title: text_of(self.title),
            artist: text_of(self.artist),
            year: self.year,
            album: text_of(self.album),
            track: self.track,
        }
    }
}

/// Whether a container bears the given metadata.
pub open spec fn described_by(l: LilacView, meta: MetadataView) -> bool {
    &&& l.title == meta.title
    &&& l.artist == meta.artist
    &&& l.year == meta.year
    &&& l.album == meta.album
    &&& l.track == meta.track
}

/// A list of comments: pairs of field name and value.
pub type Comments = Seq<(Seq<char>, Seq<char>)>;

/// Metadata with every field absent.
pub open spec fn no_metadata() -> MetadataView {
    MetadataView { title: None, artist: None, year: None, album: None, track: None }
}

/// The values of the comments named `name`, in the order of the list.
pub open spec fn values_of(comments: Comments, name: Seq<char>) -> Seq<Seq<char>>
    decreases comments.len(),
{
    if comments.len() == 0 {
        Seq::empty()
    } else {
        let before = values_of(comments.drop_last(), name);
        if same_ignoring_case(comments.last().0, name) {
            before.push(comments.last().1)
        } else {
            before
        }
    }
}

/// The first of the values, if there is one.
pub open spec fn first_of(values: Seq<Seq<char>>) -> Option<Seq<char>> {
    if values.len() > 0 {
        Some(values[0])
    } else {
        None
    }
}

/// All values joined by a comma and a space, if there is one.
pub open spec fn all_of(values: Seq<Seq<char>>) -> Option<Seq<char>> {
    if values.len() > 0 {
        Some(joined(values, ", "@))
    } else {
        None
    }
}

/// The number written by the first value, if that value is a number.
pub open spec fn number_of_first(values: Seq<Seq<char>>) -> Option<u32> {
    if values.len() > 0 {
        parsed_u32(values[0])
    } else {
        None
    }
}

/// The number written by the first value that is a number.
pub open spec fn first_number_of(values: Seq<Seq<char>>) -> Option<u32>
    decreases values.len(),
{
    if values.len() == 0 {
        None
    } else if parsed_u32(values[0]) is Some {
        parsed_u32(values[0])
    } else {
        first_number_of(values.drop_first())
    }
}

/// The metadata of a FLAC stream with these comments. Only the first
/// `TRACKNUMBER` comment is looked at.
pub open spec fn flac_metadata(comments: Comments) -> MetadataView {
    MetadataView {
        title: first_of(values_of(comments, "TITLE"@)),
        artist: all_of(values_of(comments, "ARTIST"@)),
        year: None,
        album: first_of(values_of(comments, "ALBUM"@)),
        track: number_of_first(values_of(comments, "TRACKNUMBER"@)),
    }
}

/// The metadata of a Vorbis stream with these comments. The track number is
/// that of the first `TRACKNUMBER` comment that is a number.
pub open spec fn ogg_metadata(comments: Comments) -> MetadataView {
    MetadataView {
        title: first_of(values_of(comments, "TITLE"@)),
        artist: all_of(values_of(comments, "ARTIST"@)),
        year: None,
        album: first_of(values_of(comments, "ALBUM"@)),
        track: first_number_of(values_of(comments, "TRACKNUMBER"@)),
    }
}

/// Collects the values of the comments named `name`.
pub fn values(comments: &Vec<(String, String)>, name: &str) -> (r: Vec<String>)
    ensures
        r.deep_view() == values_of(comments.deep_view(), name@),
{
    let mut out: Vec<String> = Vec::new();
    let mut i: usize = 0;
    assert(comments.deep_view().subrange(0, 0) =~= Seq::empty());
    assert(out.deep_view() =~= Seq::empty());
    while i < comments.len()
        invariant
            i <= comments.len(),
            out.deep_view() == values_of(comments.deep_view().subrange(0, i as int), name@),
        decreases comments.len() - i,
    {
        let ghost done = comments.deep_view().subrange(0, i as int);
        let ghost next = comments.deep_view().subrange(0, i + 1);
        let ghost before = out.deep_view();
        proof {
            assert(next.drop_last() =~= done);
            assert(next.last() == comments.deep_view()[i as int]);
            assert(comments.deep_view()[i as int] == (comments@[i as int].0@, comments@[i as int].1@));
        }
        if eq_ignore_ascii_case(comments[i].0.as_str(), name) {
            out.push(comments[i].1.clone());
            assert(out.deep_view() =~= before.push(comments@[i as int].1@));
        }
        i = i + 1;
    }
    assert(comments.deep_view().subrange(0, comments.len() as int) =~= comments.deep_view());
    out
}

/// The first of the values, if there is one.
pub fn first(values: &Vec<String>) -> (r: Option<String>)
    ensures
        text_of(r) == first_of(values.deep_view()),
{
    if values.len() > 0 {
        assert(values.deep_view()[0] == values@[0]@);
        Some(values[0].clone())
    } else {
        None
    }
}

/// All values joined by a comma and a space, if there is one.
pub fn all(values: &Vec<String>) -> (r: Option<String>)
    ensures
        text_of(r) == all_of(values.deep_view()),
{
    if values.len() > 0 {
        Some(join(values, ", "))
    } else {
        None
    }
}

/// The number written by the first value that is a number.
pub fn first_number(values: &Vec<String>) -> (r: Option<u32>)
    ensures
        r == first_number_of(values.deep_view()),
{
    let mut i: usize = 0;
    assert(values.deep_view().subrange(0, values.len() as int) =~= values.deep_view());
    while i < values.len()
        invariant
            i <= values.len(),
            first_number_of(values.deep_view()) == first_number_of(
                values.deep_view().subrange(i as int, values.len() as int),
            ),
        decreases values.len() - i,
    {
        let ghost rest = values.deep_view().subrange(i as int, values.len() as int);
        proof {
            assert(rest[0] == values@[i as int]@);
            assert(rest.drop_first() =~= values.deep_view().subrange(i + 1, values.len() as int));
        }
        match parse_u32(values[i].as_str()) {
            Some(n) => {
                return Some(n);
            },
            None => {},
        }
        i = i + 1;
    }
    None
}

impl Metadata {
    /// Metadata with every field absent.
    pub fn empty() -> (r: Metadata)
        ensures
            r@ == no_metadata(),
    {
        Metadata { title: None, artist: None, year: None, album: None, track: None }
    }

    /// Reads the metadata of a FLAC stream out of its comments.
    pub fn from_flac_comments(comments: &Vec<(String, String)>) -> (r: Metadata)
        ensures
            r@ == flac_metadata(comments.deep_view()),
    {
        let titles = values(comments, "TITLE");
        let artists = values(comments, "ARTIST");
        let albums = values(comments, "ALBUM");
        let numbers = values(comments, "TRACKNUMBER");
        let track = if numbers.len() > 0 {
            assert(numbers.deep_view()[0] == numbers@[0]@);
            parse_u32(numbers[0].as_str())
        } else {
            None
        };
        Metadata {
            title: first(&titles),
            artist: all(&artists),
            year: None,
            album: first(&albums),
            track,
        }
    }

    /// Reads the metadata of a Vorbis stream out of its comments.
    pub fn from_ogg_comments(comments: &Vec<(String, String)>) -> (r: Metadata)
        ensures
            r@ == ogg_metadata(comments.deep_view()),
    {
        let titles = values(comments, "TITLE");
        let artists = values(comments, "ARTIST");
        let albums = values(comments, "ALBUM");
        let numbers = values(comments, "TRACKNUMBER");
        Metadata {
            title: first(&titles),
            artist: all(&artists),
            year: None,
            album: first(&albums),
            track: first_number(&numbers),
        }
    }
}

} // verus!
