//! The rules by which one file of a batch is converted: which format it is
//! taken for, which decoder reads it, what its output is called, and in which
//! order the steps follow each other. The steps themselves (opening, writing
//! and removing files) are the caller's; every file of a batch runs through
//! the steps on its own.

use crate::container::{shown, Lilac, LilacView};
use crate::error::Error;
use crate::flac::flac_outcome;
use crate::format::{hinted, sniffed, target_of, token, Format};
use crate::mp3::mp3_outcome;
use crate::ogg::{is_ogg_countable, ogg_countable, ogg_outcome};
use crate::text::{lemma_replaced_after, lemma_replaced_without, replace, replaced};
use crate::wav::wav_outcome;
use vstd::prelude::*;

verus! {

/// The format that a stream is taken for: the one its extension names,
/// whatever its content; without a known extension, the one its first bytes
/// stand for.
pub open spec fn identified(extension: Option<Seq<char>>, bytes: Seq<u8>) -> Format {
    match extension {
        Some(e) => match hinted(e) {
            Some(f) => f,
            None => sniffed(bytes),
        },
        None => sniffed(bytes),
    }
}

/// What holds of decoding the bytes as a format. There is no outcome where
/// the library has no decoder to run: for the canonical form, which is text
/// and read by the caller, and for an Ogg stream that the Vorbis decoder
/// cannot count.
pub open spec fn decoded(format: Format, bytes: Seq<u8>, r: Option<Result<Lilac, Error>>) -> bool {
    match format {
        Format::Lilac => r is None,
        Format::Mp3 => r matches Some(x) && mp3_outcome(bytes, x),
        Format::Flac => r matches Some(x) && flac_outcome(bytes, x),
        Format::Ogg => if ogg_countable(bytes) {
            r matches Some(x) && ogg_outcome(bytes, x)
        } else {
            r is None
        },
        Format::Wav => r matches Some(x) && wav_outcome(bytes, x),
    }
}

/// A template with its tokens replaced, one token after the other over the
/// whole text: `%F` by the stem of the input's file name, `%E` by the
/// extension of the output format, `%e` by the extension of the input format,
/// `%T`, `%A` and `%a` by title, artist and album, each `Unknown` where the
/// container has none.
pub open spec fn output_name_of(
    template: Seq<char>,
    stem: Seq<char>,
    format: Format,
    lilac: LilacView,
) -> Seq<char> {
    let with_stem = replaced(template, "%F"@, stem);
    let with_output = replaced(with_stem, "%E"@, token(target_of(format)));
    let with_input = replaced(with_output, "%e"@, token(format));
    let with_title = replaced(with_input, "%T"@, shown(lilac.title));
    let with_artist = replaced(with_title, "%A"@, shown(lilac.artist));
    replaced(with_artist, "%a"@, shown(lilac.album))
}

/// A template without a percent sign holds no token: the output bears the
/// name that the template says.
pub proof fn lemma_plain_template(
    template: Seq<char>,
    stem: Seq<char>,
    format: Format,
    lilac: LilacView,
)
    requires
        !template.contains('%'),
    ensures
        output_name_of(template, stem, format, lilac) == template,
{
    reveal_strlit("%F");
    reveal_strlit("%E");
    reveal_strlit("%e");
    reveal_strlit("%T");
    reveal_strlit("%A");
    reveal_strlit("%a");
    lemma_replaced_without(template, "%F"@, stem);
    lemma_replaced_without(template, "%E"@, token(target_of(format)));
    lemma_replaced_without(template, "%e"@, token(format));
    lemma_replaced_without(template, "%T"@, shown(lilac.title));
    lemma_replaced_without(template, "%A"@, shown(lilac.artist));
    lemma_replaced_without(template, "%a"@, shown(lilac.album));
}

/// Under the template `%F.%E` the output bears the stem of the input, a dot
/// and the extension of the output format, whatever the metadata says. (The
/// stem must hold no percent sign, which could make up a token of its own.)
pub proof fn lemma_default_template(stem: Seq<char>, format: Format, lilac: LilacView)
    requires
        !stem.contains('%'),
    ensures
        output_name_of("%F.%E"@, stem, format, lilac) == stem + "."@ + token(target_of(format)),
{
    reveal_strlit("%F.%E");
    reveal_strlit("%F");
    reveal_strlit("%E");
    reveal_strlit("%e");
    reveal_strlit("%T");
    reveal_strlit("%A");
    reveal_strlit("%a");
    reveal_strlit(".");
    reveal_strlit("wav");
    reveal_strlit("lilac");
    let template = "%F.%E"@;
    let ext = token(target_of(format));
    let tail = seq!['.', '%', 'E'];
    assert(template =~= seq!['%', 'F', '.', '%', 'E']);
    assert("%F"@ =~= seq!['%', 'F']);
    assert("%E"@ =~= seq!['%', 'E']);
    assert("."@ =~= seq!['.']);
    // The stem goes in for `%F`; what follows holds no `%F`.
    assert(replaced(tail, "%F"@, stem) == tail) by {
        reveal_with_fuel(replaced, 4);
        assert(tail.subrange(0, 2) =~= seq!['.', '%']);
        assert(tail.subrange(1, 3) =~= seq!['%', 'E']);
        assert(seq!['%', 'E'].subrange(0, 2) =~= seq!['%', 'E']);
        assert(seq!['%', 'E'].subrange(1, 2) =~= seq!['E']);
        assert(seq!['%'] + seq!['E'] =~= seq!['%', 'E']);
        assert(seq!['.'] + seq!['%', 'E'] =~= tail);
    }
    let with_stem = replaced(template, "%F"@, stem);
    assert(with_stem == stem + tail) by {
        assert(template.subrange(0, 2) =~= "%F"@);
        assert(template.subrange(2, 5) =~= tail);
    }
    // The extension goes in for `%E`, which stands behind the stem and the dot.
    assert(replaced(tail, "%E"@, ext) == seq!['.'] + ext) by {
        reveal_with_fuel(replaced, 4);
        assert(tail.subrange(0, 2) =~= seq!['.', '%']);
        assert(tail.subrange(1, 3) =~= seq!['%', 'E']);
        assert(seq!['%', 'E'].subrange(0, 2) =~= seq!['%', 'E']);
        assert(seq!['%', 'E'].subrange(2, 2) =~= Seq::<char>::empty());
        assert(ext + Seq::<char>::empty() =~= ext);
    }
    lemma_replaced_after(stem, tail, "%E"@, ext);
    let named = stem + "."@ + ext;
    assert(replaced(with_stem, "%E"@, ext) =~= named);
    // Nothing is left for the other tokens.
    assert(!named.contains('%')) by {
        if named.contains('%') {
            let i = choose|i: int| 0 <= i < named.len() && named[i] == '%';
            if i < stem.len() {
                assert(stem[i] == '%');
                assert(stem.contains('%'));
            }
        }
    }
    lemma_replaced_without(named, "%e"@, token(format));
    lemma_replaced_without(named, "%T"@, shown(lilac.title));
    lemma_replaced_without(named, "%A"@, shown(lilac.artist));
    lemma_replaced_without(named, "%a"@, shown(lilac.album));
}

/// Where the conversion of one file stands.
#[derive(Clone, Copy, Debug, PartialEq, Eq, Structural)]
pub enum Stage {
    /// The input is to be opened and read.
    Opening,
    /// The bytes are to be decoded into a container.
    Decoding,
    /// The directories of the output are to be created.
    Preparing,
    /// The container is to be encoded and written.
    Encoding,
    /// The input is to be removed.
    Removing,
    /// All steps are done.
    Succeeded,
    /// A step failed. Nothing more is done for this file.
    Failed,
}

impl Stage {
    /// Whether nothing more is to be done.
    pub open spec fn is_final(self) -> bool {
        self == Stage::Succeeded || self == Stage::Failed
    }
}

/// The stage that follows `stage` once its step has been tried, with success
/// or not. The input is removed only where it is not to be kept, and only
/// after the output is written.
pub open spec fn advanced(stage: Stage, ok: bool, keep: bool) -> Stage {
    match stage {
        Stage::Succeeded => Stage::Succeeded,
        Stage::Failed => Stage::Failed,
        _ => if !ok {
            Stage::Failed
        } else {
            match stage {
                Stage::Opening => Stage::Decoding,
                Stage::Decoding => Stage::Preparing,
                Stage::Preparing => Stage::Encoding,
                Stage::Encoding => if keep {
                    Stage::Succeeded
                } else {
                    Stage::Removing
                },
                _ => Stage::Succeeded,
            }
        },
    }
}

/// The stage reached from `Opening` after the steps whose results are
/// `results`, in order.
pub open spec fn stage_after(results: Seq<bool>, keep: bool) -> Stage
    decreases results.len(),
{
    if results.len() == 0 {
        Stage::Opening
    } else {
        advanced(stage_after(results.drop_last(), keep), results.last(), keep)
    }
}

/// Once a step has failed the file stays failed, whatever is reported
/// afterwards.
pub proof fn lemma_failure_is_final(results: Seq<bool>, keep: bool, at: int)
    requires
        0 <= at < results.len(),
        !results[at],
        !stage_after(results.subrange(0, at), keep).is_final(),
    ensures
        stage_after(results, keep) == Stage::Failed,
    decreases results.len() - at,
{
    let upto = results.subrange(0, at + 1);
    assert(upto.drop_last() =~= results.subrange(0, at));
    assert(upto.last() == results[at]);
    assert(stage_after(upto, keep) == Stage::Failed);
    lemma_failed_stays(results, keep, at + 1);
}

/// A file that has failed after some steps has failed after any more.
pub proof fn lemma_failed_stays(results: Seq<bool>, keep: bool, n: int)
    requires
        0 <= n <= results.len(),
        stage_after(results.subrange(0, n), keep) == Stage::Failed,
    ensures
        stage_after(results, keep) == Stage::Failed,
    decreases results.len() - n,
{
    if n == results.len() {
        assert(results.subrange(0, n) =~= results);
    } else {
        let next = results.subrange(0, n + 1);
        assert(next.drop_last() =~= results.subrange(0, n));
        lemma_failed_stays(results, keep, n + 1);
    }
}

/// The input of a file is only ever to be removed when it is not to be kept
/// and every step before, the decoding and the encoding among them, has
/// succeeded.
pub proof fn lemma_removal_follows_success(results: Seq<bool>, keep: bool)
    requires
        stage_after(results, keep) == Stage::Removing,
    ensures
        !keep,
        results.len() == 4,
        forall|i: int| 0 <= i < results.len() ==> results[i],
{
    let r3 = results.drop_last();
    assert(stage_after(r3, keep) == Stage::Encoding && results.last());
    let r2 = r3.drop_last();
    assert(stage_after(r2, keep) == Stage::Preparing && r3.last());
    let r1 = r2.drop_last();
    assert(stage_after(r1, keep) == Stage::Decoding && r2.last());
    let r0 = r1.drop_last();
    assert(stage_after(r0, keep) == Stage::Opening && r1.last());
    if r0.len() > 0 {
        lemma_opening_is_first(r0, keep);
    }
    assert forall|i: int| 0 <= i < results.len() implies results[i] by {
        assert(results[3] == results.last());
        assert(results[2] == r3.last());
        assert(results[1] == r2.last());
        assert(results[0] == r1.last());
    }
}

/// No step leads back to `Opening`.
pub proof fn lemma_opening_is_first(results: Seq<bool>, keep: bool)
    requires
        results.len() > 0,
    ensures
        stage_after(results, keep) != Stage::Opening,
{
}

impl Stage {
    /// The stage at which every file begins.
    pub fn first() -> (r: Stage)
        ensures
            r == Stage::Opening,
    {
        Stage::Opening
    }

    /// Whether nothing more is to be done for the file.
    pub fn is_finished(self) -> (r: bool)
        ensures
            r == self.is_final(),
    {
        match self {
            Stage::Succeeded => true,
            Stage::Failed => true,
            _ => false,
        }
    }

    /// The stage that follows this one once its step has been tried; `ok`
    /// says whether the step succeeded, `keep` whether the input is to stay.
    pub fn advance(self, ok: bool, keep: bool) -> (r: Stage)
        ensures
            r == advanced(self, ok, keep),
    {
        match self {
            Stage::Succeeded => Stage::Succeeded,
            Stage::Failed => Stage::Failed,
            _ => {
                if !ok {
                    return Stage::Failed;
                }
                match self {
                    Stage::Opening => Stage::Decoding,
                    Stage::Decoding => Stage::Preparing,
                    Stage::Preparing => Stage::Encoding,
                    Stage::Encoding => {
                        if keep {
                            Stage::Succeeded
                        } else {
                            Stage::Removing
                        }
                    },
                    _ => Stage::Succeeded,
                }
            },
        }
    }
}

/// Chooses the format of a stream from the extension of its file name, if it
/// has a known one, else from its first bytes.
pub fn identify(extension: Option<&str>, bytes: &[u8]) -> (r: Format)
    ensures
        r == identified(
            match extension {
                Some(e) => Some(e@),
                None => None,
            },
            bytes@,
        ),
{
    match extension {
        Some(e) => match Format::from_extension(e) {
            Some(f) => f,
            None => Format::sniff(bytes),
        },
        None => Format::sniff(bytes),
    }
}

/// The name of the output of a conversion.
pub fn output_name(template: &str, stem: &str, format: Format, lilac: &Lilac) -> (r: String)
    ensures
        r@ == output_name_of(template@, stem@, format, lilac@),
{
    let with_stem = replace(template, "%F", stem);
    let with_output = replace(with_stem.as_str(), "%E", format.output_extension());
    let with_input = replace(with_output.as_str(), "%e", format.extension());
    let with_title = replace(with_input.as_str(), "%T", lilac.title());
    let with_artist = replace(with_title.as_str(), "%A", lilac.artist());
    replace(with_artist.as_str(), "%a", lilac.album())
}

impl Lilac {
    /// Decodes a stream with the decoder of its format. For the canonical
    /// form, which is text and read by the caller, there is none; nor is
    /// there for an Ogg stream that the Vorbis decoder cannot count.
    pub fn decode(format: Format, bytes: &[u8]) -> (r: Option<Result<Lilac, Error>>)
        ensures
            decoded(format, bytes@, r),
    {
        match format {
            Format::Lilac => None,
            Format::Mp3 => Some(Lilac::from_mp3(bytes)),
            Format::Flac => Some(Lilac::from_flac(bytes)),
            Format::Ogg => {
                if is_ogg_countable(bytes) {
                    Some(Lilac::from_ogg(bytes))
                } else {
                    None
                }
            },
            Format::Wav => Some(Lilac::from_wav(bytes)),
        }
    }

    /// Classifies a stream by its first bytes and decodes it accordingly.
    pub fn detect(bytes: &[u8]) -> (r: (Format, Option<Result<Lilac, Error>>))
        ensures
            r.0 == sniffed(bytes@),
            decoded(r.0, bytes@, r.1),
    {
        let format = Format::sniff(bytes);
        (format, Lilac::decode(format, bytes))
    }
}

} // verus!
