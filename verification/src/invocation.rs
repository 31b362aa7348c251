//! The argument vectors handed to the media tool, one per invocation.

use vstd::prelude::*;
use crate::text::decimal;
use crate::text::signed_millionths;
use crate::text::render_index;
use crate::text::render_millionths;

verus! {

/// The contents of a list of strings.
pub open spec fn texts(v: Seq<String>) -> Seq<Seq<char>> {
    v.map_values(|s: String| s@)
}

/// Appends a copy of `s` to `v`.
pub fn push_text(v: &mut Vec<String>, s: &str)
    ensures
        texts(final(v)@) == texts(old(v)@).push(s@),
{
    let owned = String::from_str(s);
    v.push(owned);
    assert(texts(v@) =~= texts(old(v)@).push(s@));
}

/// Appends copies of all of `more` to `v`, in order.
pub fn push_texts(v: &mut Vec<String>, more: &Vec<String>)
    ensures
        texts(final(v)@) == texts(old(v)@) + texts(more@),
{
    let mut k: usize = 0;
    while k < more.len()
        invariant
            k <= more.len(),
            texts(v@) == texts(old(v)@) + texts(more@).take(k as int),
        decreases more.len() - k,
    {
        push_text(v, more[k].as_str());
        assert(texts(more@).take(k + 1) =~= texts(more@).take(k as int).push(more@[k as int]@));
        assert(texts(v@) =~= texts(old(v)@) + texts(more@).take(k + 1));
        k = k + 1;
    }
    assert(texts(more@).take(k as int) =~= texts(more@));
}

/// One run of the media tool: its arguments, in order.
#[derive(Debug, PartialEq, Eq)]
pub struct Invocation {
    pub args: Vec<String>,
}

impl View for Invocation {
    type V = Seq<Seq<char>>;

    open spec fn view(&self) -> Seq<Seq<char>> {
        texts(self.args@)
    }
}

/// Seek, input and duration: the head of every trim.
pub open spec fn trim_head(input: Seq<char>, trim_start: int, span: int) -> Seq<Seq<char>> {
    seq!["-ss"@, signed_millionths(trim_start), "-i"@, input, "-t"@, signed_millionths(span)]
}

/// Cuts `[trim_start, trim_start + span)` out of `input` without re-encoding.
pub open spec fn copy_trim_args(input: Seq<char>, trim_start: int, span: int, output: Seq<char>) -> Seq<
    Seq<char>,
> {
    trim_head(input, trim_start, span) + seq!["-c"@, "copy"@, "-y"@, output]
}

/// Cuts the stretch out of `input`, drops the audio and re-encodes the video.
pub open spec fn video_trim_args(input: Seq<char>, trim_start: int, span: int, output: Seq<char>) -> Seq<
    Seq<char>,
> {
    trim_head(input, trim_start, span) + seq!["-an"@, "-c:v"@, "libx264"@, "-y"@, output]
}

/// Cuts the stretch out of `input`, drops the video and re-encodes the audio.
pub open spec fn audio_trim_args(input: Seq<char>, trim_start: int, span: int, output: Seq<char>) -> Seq<
    Seq<char>,
> {
    trim_head(input, trim_start, span) + seq!["-vn"@, "-acodec"@, "mp3"@, "-y"@, output]
}

/// Renders a black 1920x1080 canvas of `length` microseconds.
pub open spec fn background_args(length: int, output: Seq<char>) -> Seq<Seq<char>> {
    seq![
        "-f"@,
        "lavfi"@,
        "-i"@,
        "color=black:size=1920x1080:duration=0.1"@,
        "-vf"@,
        "scale=1920:1080,loop=loop=-1:size=1:start=0"@,
        "-t"@,
        signed_millionths(length),
        "-c:v"@,
        "libx264"@,
        "-y"@,
        output,
    ]
}

/// Joins the segments named in the list file `list`, in the list's order.
/// `audio` picks the audio re-encode of the assembled track over a plain copy.
pub open spec fn concat_args(list: Seq<char>, audio: bool, output: Seq<char>) -> Seq<Seq<char>> {
    seq!["-f"@, "concat"@, "-safe"@, "0"@, "-i"@, list] + (if audio {
        seq!["-c:a"@, "mp3"@]
    } else {
        seq!["-c"@, "copy"@]
    }) + seq!["-y"@, output]
}

/// One `-i` per input, in order. The position of a path in `paths` is the
/// stream index by which a filter graph refers to it.
pub open spec fn input_args(paths: Seq<Seq<char>>) -> Seq<Seq<char>>
    decreases paths.len(),
{
    if paths.len() == 0 {
        Seq::empty()
    } else {
        input_args(paths.drop_last()).push("-i"@).push(paths.last())
    }
}

/// Composites the main track: the inputs, the graph, and the graph's last
/// label mapped to a video-only output.
pub open spec fn assembly_args(
    inputs: Seq<Seq<char>>,
    graph: Seq<char>,
    last_label: Seq<char>,
    output: Seq<char>,
) -> Seq<Seq<char>> {
    input_args(inputs) + seq![
        "-filter_complex"@,
        graph,
        "-map"@,
        "["@ + last_label + "]"@,
        "-c:v"@,
        "libx264"@,
        "-y"@,
        output,
    ]
}

/// The final composition: the video inputs, then the audio input, the graph,
/// and the mappings of the graph's `video` label and of the audio input.
pub open spec fn composition_args(
    video_inputs: Seq<Seq<char>>,
    audio_input: Seq<char>,
    graph: Seq<char>,
    output: Seq<char>,
) -> Seq<Seq<char>> {
    input_args(video_inputs.push(audio_input)) + seq![
        "-filter_complex"@,
        graph,
        "-map"@,
        "[video]"@,
        "-map"@,
        decimal(video_inputs.len()) + ":a"@,
        "-c:v"@,
        "libx264"@,
        "-c:a"@,
        "aac"@,
        "-preset"@,
        "fast"@,
        "-y"@,
        output,
    ]
}

fn trim_head_of(input: &str, trim_start: i64, trim_end: i64) -> (args: Vec<String>)
    ensures
        texts(args@) == trim_head(input@, trim_start as int, trim_end - trim_start),
{
    let mut args: Vec<String> = Vec::new();
    push_text(&mut args, "-ss");
    let start = render_millionths(trim_start as i128);
    push_text(&mut args, start.as_str());
    push_text(&mut args, "-i");
    push_text(&mut args, input);
    push_text(&mut args, "-t");
    let span = render_millionths(trim_end as i128 - trim_start as i128);
    push_text(&mut args, span.as_str());
    assert(texts(args@) =~= trim_head(input@, trim_start as int, trim_end - trim_start));
    args
}

impl Invocation {
    /// A trim of `[trim_start, trim_end)` that copies the streams.
    pub fn copy_trim(input: &str, trim_start: i64, trim_end: i64, output: &str) -> (r: Invocation)
        ensures
            r@ == copy_trim_args(input@, trim_start as int, trim_end - trim_start, output@),
    {
        let mut args = trim_head_of(input, trim_start, trim_end);
        push_text(&mut args, "-c");
        push_text(&mut args, "copy");
        push_text(&mut args, "-y");
        push_text(&mut args, output);
        assert(texts(args@) =~= copy_trim_args(
            input@,
            trim_start as int,
            trim_end - trim_start,
            output@,
        ));
        Invocation { args }
    }

    /// A trim of `[trim_start, trim_end)` that keeps the video only.
    pub fn video_trim(input: &str, trim_start: i64, trim_end: i64, output: &str) -> (r: Invocation)
        ensures
            r@ == video_trim_args(input@, trim_start as int, trim_end - trim_start, output@),
    {
        let mut args = trim_head_of(input, trim_start, trim_end);
        push_text(&mut args, "-an");
        push_text(&mut args, "-c:v");
        push_text(&mut args, "libx264");
        push_text(&mut args, "-y");
        push_text(&mut args, output);
        assert(texts(args@) =~= video_trim_args(
            input@,
            trim_start as int,
            trim_end - trim_start,
            output@,
        ));
        Invocation { args }
    }

    /// A trim of `[trim_start, trim_end)` that keeps the audio only.
    pub fn audio_trim(input: &str, trim_start: i64, trim_end: i64, output: &str) -> (r: Invocation)
        ensures
            r@ == audio_trim_args(input@, trim_start as int, trim_end - trim_start, output@),
    {
        let mut args = trim_head_of(input, trim_start, trim_end);
        push_text(&mut args, "-vn");
        push_text(&mut args, "-acodec");
        push_text(&mut args, "mp3");
        push_text(&mut args, "-y");
        push_text(&mut args, output);
        assert(texts(args@) =~= audio_trim_args(
            input@,
            trim_start as int,
            trim_end - trim_start,
            output@,
        ));
        Invocation { args }
    }

    /// The black canvas for an output of `length` microseconds.
    pub fn background(length: i128, output: &str) -> (r: Invocation)
        ensures
            r@ == background_args(length as int, output@),
    {
        let mut args: Vec<String> = Vec::new();
        push_text(&mut args, "-f");
        push_text(&mut args, "lavfi");
        push_text(&mut args, "-i");
        push_text(&mut args, "color=black:size=1920x1080:duration=0.1");
        push_text(&mut args, "-vf");
        push_text(&mut args, "scale=1920:1080,loop=loop=-1:size=1:start=0");
        push_text(&mut args, "-t");
        let span = render_millionths(length);
        push_text(&mut args, span.as_str());
        push_text(&mut args, "-c:v");
        push_text(&mut args, "libx264");
        push_text(&mut args, "-y");
        push_text(&mut args, output);
        assert(texts(args@) =~= background_args(length as int, output@));
        Invocation { args }
    }

    /// The concatenation of the segments listed in the file `list`.
    pub fn concat(list: &str, audio: bool, output: &str) -> (r: Invocation)
        ensures
            r@ == concat_args(list@, audio, output@),
    {
        let mut args: Vec<String> = Vec::new();
        push_text(&mut args, "-f");
        push_text(&mut args, "concat");
        push_text(&mut args, "-safe");
        push_text(&mut args, "0");
        push_text(&mut args, "-i");
        push_text(&mut args, list);
        if audio {
            push_text(&mut args, "-c:a");
            push_text(&mut args, "mp3");
        } else {
            push_text(&mut args, "-c");
            push_text(&mut args, "copy");
        }
        push_text(&mut args, "-y");
        push_text(&mut args, output);
        assert(texts(args@) =~= concat_args(list@, audio, output@));
        Invocation { args }
    }

    /// The composite of the main track from `inputs` through `graph`.
    pub fn assembly(inputs: &Vec<String>, graph: &str, last_label: &str, output: &str) -> (r:
        Invocation)
        ensures
            r@ == assembly_args(texts(inputs@), graph@, last_label@, output@),
    {
        let mut args = inputs_of(inputs);
        push_text(&mut args, "-filter_complex");
        push_text(&mut args, graph);
        push_text(&mut args, "-map");
        let mut mapped = String::from_str("[");
        mapped.append(last_label);
        mapped.append("]");
        push_text(&mut args, mapped.as_str());
        push_text(&mut args, "-c:v");
        push_text(&mut args, "libx264");
        push_text(&mut args, "-y");
        push_text(&mut args, output);
        assert(texts(args@) =~= assembly_args(texts(inputs@), graph@, last_label@, output@));
        Invocation { args }
    }

    /// The final composition of `video_inputs` and `audio_input` through
    /// `graph`.
    pub fn composition(video_inputs: &Vec<String>, audio_input: &str, graph: &str, output: &str) -> (r:
        Invocation)
        ensures
            r@ == composition_args(texts(video_inputs@), audio_input@, graph@, output@),
    {
        let mut args = inputs_of(video_inputs);
        push_text(&mut args, "-i");
        push_text(&mut args, audio_input);
        proof {
            let all = texts(video_inputs@).push(audio_input@);
            assert(all.drop_last() =~= texts(video_inputs@));
            assert(texts(args@) =~= input_args(all));
        }
        push_text(&mut args, "-filter_complex");
        push_text(&mut args, graph);
        push_text(&mut args, "-map");
        push_text(&mut args, "[video]");
        push_text(&mut args, "-map");
        let mut audio_stream = render_index(video_inputs.len());
        audio_stream.append(":a");
        push_text(&mut args, audio_stream.as_str());
        push_text(&mut args, "-c:v");
        push_text(&mut args, "libx264");
        push_text(&mut args, "-c:a");
        push_text(&mut args, "aac");
        push_text(&mut args, "-preset");
        push_text(&mut args, "fast");
        push_text(&mut args, "-y");
        push_text(&mut args, output);
        assert(texts(args@) =~= composition_args(
            texts(video_inputs@),
            audio_input@,
            graph@,
            output@,
        ));
        Invocation { args }
    }
}

fn inputs_of(paths: &Vec<String>) -> (args: Vec<String>)
    ensures
        texts(args@) == input_args(texts(paths@)),
{
    let mut args: Vec<String> = Vec::new();
    let mut k: usize = 0;
    assert(texts(paths@).take(0) =~= Seq::<Seq<char>>::empty());
    while k < paths.len()
        invariant
            k <= paths.len(),
            texts(args@) == input_args(texts(paths@).take(k as int)),
        decreases paths.len() - k,
    {
        push_text(&mut args, "-i");
        push_text(&mut args, paths[k].as_str());
        proof {
            let next = texts(paths@).take(k + 1);
            assert(next.drop_last() =~= texts(paths@).take(k as int));
            assert(next.last() == paths@[k as int]@);
        }
        k = k + 1;
    }
    assert(texts(paths@).take(k as int) =~= texts(paths@));
    args
}

} // verus!
