//! The filter graph of a composition: a chain of scale, alpha and timed
//! overlay stages over the inputs of one invocation, kept as typed nodes and
//! written out as text only for the tool.

use vstd::prelude::*;
use crate::text::decimal;
use crate::text::is_digit;
use crate::text::lemma_decimal_is_digits;
use crate::text::lemma_numbered_injective;
use crate::text::millionths;
use crate::text::signed_decimal;
use crate::text::render_index;
use crate::text::render_signed;
use crate::text::render_millionths;
use crate::window::Window;

verus! {

/// Width of the output canvas.
pub const CANVAS_WIDTH: i32 = 1920;

/// Height of the output canvas.
pub const CANVAS_HEIGHT: i32 = 1080;

/// The name of a stream in a graph: an input of the invocation, or the
/// output of a stage. Names of stage outputs are numbered by the clip's
/// position in its track.
#[derive(Debug, Clone, Copy, PartialEq, Eq)]
pub enum Label {
    /// The video of input number `0`, `1`, ...
    Stream(usize),
    /// A main-track clip scaled to the canvas.
    Main(usize),
    /// The main track up to and including a clip.
    Out(usize),
    /// The assembled main track scaled to the canvas, under the overlays.
    Base,
    /// An overlay scaled to its size.
    Scaled(usize),
    /// An overlay with its opacity applied.
    Alpha(usize),
    /// The picture up to and including an overlay that is not the last.
    Stage(usize),
    /// The finished picture.
    Video,
}

/// One stage of a graph.
#[derive(Debug, Clone, Copy, PartialEq, Eq)]
pub enum FilterNode {
    /// Scales `input` to `width` x `height`.
    Scale { input: Label, width: i32, height: i32, output: Label },
    /// Gives `input` an alpha channel and multiplies it by `opacity`
    /// millionths.
    Alpha { input: Label, opacity: u32, output: Label },
    /// Draws `top` over `base` at `(x, y)` while the render clock lies in
    /// `window`.
    Overlay { base: Label, top: Label, x: i32, y: i32, window: Window, output: Label },
}

impl FilterNode {
    /// The stream this stage produces.
    pub open spec fn output(self) -> Label {
        match self {
            FilterNode::Scale { output, .. } => output,
            FilterNode::Alpha { output, .. } => output,
            FilterNode::Overlay { output, .. } => output,
        }
    }

    /// The streams this stage consumes, in order.
    pub open spec fn inputs(self) -> Seq<Label> {
        match self {
            FilterNode::Scale { input, .. } => seq![input],
            FilterNode::Alpha { input, .. } => seq![input],
            FilterNode::Overlay { base, top, .. } => seq![base, top],
        }
    }
}

/// What the graph builder needs to know of one overlay: where and how large
/// it is drawn, how opaque, and when.
#[derive(Debug, Clone, Copy, PartialEq, Eq)]
pub struct Layer {
    pub x: i32,
    pub y: i32,
    pub width: i32,
    pub height: i32,
    pub opacity: u32,
    pub window: Window,
}

/// The stage that scales input 0 to the canvas and names the result `output`.
pub open spec fn canvas_scale(output: Label) -> FilterNode {
    FilterNode::Scale {
        input: Label::Stream(0),
        width: CANVAS_WIDTH,
        height: CANVAS_HEIGHT,
        output,
    }
}

/// Stage `k` of the main-track graph of two or more clips: clip `k / 2` is
/// scaled at even `k` and drawn onto the running picture at odd `k`.
pub open spec fn main_node(windows: Seq<Window>, k: int) -> FilterNode {
    let i = k / 2;
    if k % 2 == 0 {
        FilterNode::Scale {
            input: Label::Stream((i + 1) as usize),
            width: CANVAS_WIDTH,
            height: CANVAS_HEIGHT,
            output: Label::Main(i as usize),
        }
    } else {
        FilterNode::Overlay {
            base: if i == 0 {
                Label::Stream(0)
            } else {
                Label::Out((i - 1) as usize)
            },
            top: Label::Main(i as usize),
            x: 0,
            y: 0,
            window: windows[i],
            output: Label::Out(i as usize),
        }
    }
}

/// The graph that assembles the main track. A single clip is scaled to the
/// canvas and is the picture. Two or more clips are drawn, in order, onto a
/// background that is input 0, each while the clock lies in its window;
/// clip `i` is input `i + 1`.
pub open spec fn main_graph(windows: Seq<Window>) -> Seq<FilterNode> {
    if windows.len() <= 1 {
        seq![canvas_scale(Label::Out(0))]
    } else {
        Seq::new(2 * windows.len(), |k: int| main_node(windows, k))
    }
}

/// Number of inputs that the main-track graph of `clips` clips reads.
pub open spec fn main_input_count(clips: nat) -> nat {
    if clips <= 1 {
        1
    } else {
        clips + 1
    }
}

/// The label of the assembled main track.
pub open spec fn main_last_label(clips: nat) -> Label {
    if clips <= 1 {
        Label::Out(0)
    } else {
        Label::Out((clips - 1) as usize)
    }
}

/// Stage `k` of the overlay preparation: overlay `k / 2` is scaled at even
/// `k` and made translucent at odd `k`.
pub open spec fn layer_prepare_node(layers: Seq<Layer>, k: int) -> FilterNode {
    let i = k / 2;
    if k % 2 == 0 {
        FilterNode::Scale {
            input: Label::Stream((i + 1) as usize),
            width: layers[i].width,
            height: layers[i].height,
            output: Label::Scaled(i as usize),
        }
    } else {
        FilterNode::Alpha {
            input: Label::Scaled(i as usize),
            opacity: layers[i].opacity,
            output: Label::Alpha(i as usize),
        }
    }
}

/// The stage that draws overlay `i` onto the picture so far.
pub open spec fn layer_draw_node(layers: Seq<Layer>, i: int) -> FilterNode {
    FilterNode::Overlay {
        base: if i == 0 {
            Label::Base
        } else {
            Label::Stage((i - 1) as usize)
        },
        top: Label::Alpha(i as usize),
        x: layers[i].x,
        y: layers[i].y,
        window: layers[i].window,
        output: if i == layers.len() - 1 {
            Label::Video
        } else {
            Label::Stage(i as usize)
        },
    }
}

/// The graph of the final composition. Input 0 is the assembled main track,
/// input `i + 1` is overlay `i`. Without overlays the main track is scaled to
/// the canvas and is the picture. Otherwise every overlay is scaled and made
/// translucent, and then the overlays are drawn in order, later ones on top.
pub open spec fn overlay_graph(layers: Seq<Layer>) -> Seq<FilterNode> {
    if layers.len() == 0 {
        seq![canvas_scale(Label::Video)]
    } else {
        seq![canvas_scale(Label::Base)] + Seq::new(
            2 * layers.len(),
            |k: int| layer_prepare_node(layers, k),
        ) + Seq::new(layers.len(), |i: int| layer_draw_node(layers, i))
    }
}

/// The text of a label, without its brackets.
pub open spec fn label_text(l: Label) -> Seq<char> {
    match l {
        Label::Stream(s) => decimal(s as nat) + ":v"@,
        Label::Main(i) => "main"@ + decimal(i as nat),
        Label::Out(i) => "out"@ + decimal(i as nat),
        Label::Base => "main"@,
        Label::Scaled(i) => "overlay"@ + decimal(i as nat) + "_scaled"@,
        Label::Alpha(i) => "overlay"@ + decimal(i as nat) + "_alpha"@,
        Label::Stage(i) => "overlay"@ + decimal(i as nat),
        Label::Video => "video"@,
    }
}

/// A label in the brackets in which a graph names a stream.
pub open spec fn pad_text(l: Label) -> Seq<char> {
    "["@ + label_text(l) + "]"@
}

/// The condition under which a stage acts: the render clock `t` lies in
/// `[start, end)`.
pub open spec fn enable_text(w: Window) -> Seq<char> {
    "enable='gte(t,"@ + millionths(w.start as nat) + ")*lt(t,"@ + millionths(w.end as nat) + ")'"@
}

/// The text of one stage.
pub open spec fn node_text(node: FilterNode) -> Seq<char> {
    match node {
        FilterNode::Scale { input, width, height, output } => pad_text(input) + "scale="@
            + signed_decimal(width as int) + ":"@ + signed_decimal(height as int) + pad_text(
            output,
        ),
        FilterNode::Alpha { input, opacity, output } => pad_text(input)
            + "format=yuva420p,colorchannelmixer=aa="@ + millionths(opacity as nat) + pad_text(
            output,
        ),
        FilterNode::Overlay { base, top, x, y, window, output } => pad_text(base) + pad_text(top)
            + "overlay="@ + signed_decimal(x as int) + ":"@ + signed_decimal(y as int) + ":"@
            + enable_text(window) + pad_text(output),
    }
}

/// The text of a graph: its stages in order, separated by semicolons.
pub open spec fn graph_text(nodes: Seq<FilterNode>) -> Seq<char>
    decreases nodes.len(),
{
    if nodes.len() == 0 {
        Seq::empty()
    } else if nodes.len() == 1 {
        node_text(nodes[0])
    } else {
        graph_text(nodes.drop_last()) + ";"@ + node_text(nodes.last())
    }
}

/// Stage `k` may read `l`: it is one of the `inputs` inputs of the
/// invocation, or the output of an earlier stage.
pub open spec fn resolved(nodes: Seq<FilterNode>, inputs: nat, k: int, l: Label) -> bool {
    match l {
        Label::Stream(s) => s < inputs,
        _ => exists|j: int| 0 <= j < k && (#[trigger] nodes[j]).output() == l,
    }
}

/// Some stage reads the video of input `s`.
pub open spec fn reads_stream(nodes: Seq<FilterNode>, s: int) -> bool {
    exists|k: int, q: int|
        0 <= k < nodes.len() && 0 <= q < nodes[k].inputs().len() && #[trigger] nodes[k].inputs()[q]
            == Label::Stream(s as usize)
}

/// The graph is a chain over `inputs` inputs that ends in `last`: no two
/// stages share an output name, every stage reads only inputs of the
/// invocation and outputs of earlier stages, every input is read, and the
/// last stage produces `last`.
pub open spec fn well_formed(nodes: Seq<FilterNode>, inputs: nat, last: Label) -> bool {
    &&& nodes.len() > 0
    &&& nodes.last().output() == last
    &&& forall|k: int| 0 <= k < nodes.len() ==> !((#[trigger] nodes[k]).output() is Stream)
    &&& forall|j: int, k: int|
        0 <= j < k < nodes.len() ==> (#[trigger] nodes[j]).output() != (#[trigger] nodes[k]).output()
    &&& forall|k: int, q: int|
        0 <= k < nodes.len() && 0 <= q < nodes[k].inputs().len() ==> resolved(
            nodes,
            inputs,
            k,
            #[trigger] nodes[k].inputs()[q],
        )
    &&& forall|s: int| 0 <= s < inputs ==> #[trigger] reads_stream(nodes, s)
}

/// Where the main-track graph of two or more clips writes a label.
spec fn main_position(l: Label) -> int {
    match l {
        Label::Main(i) => 2 * i,
        Label::Out(i) => 2 * i + 1,
        _ => -1,
    }
}

/// Whether stage `k` may read `l`, given where each label is written.
spec fn reads_earlier(nodes: Seq<FilterNode>, inputs: nat, k: int, l: Label, at: int) -> bool {
    match l {
        Label::Stream(s) => s < inputs,
        _ => 0 <= at < k && nodes[at].output() == l,
    }
}

proof fn lemma_main_node(windows: Seq<Window>, k: int)
    requires
        2 <= windows.len() <= usize::MAX,
        0 <= k < 2 * windows.len(),
    ensures
        ({
            let nodes = main_graph(windows);
            let node = nodes[k];
            &&& nodes.len() == 2 * windows.len()
            &&& !(node.output() is Stream)
            &&& main_position(node.output()) == k
            &&& forall|q: int|
                0 <= q < node.inputs().len() ==> reads_earlier(
                    nodes,
                    windows.len() + 1,
                    k,
                    #[trigger] node.inputs()[q],
                    main_position(node.inputs()[q]),
                )
        }),
{
    let nodes = main_graph(windows);
    assert(nodes[k] == main_node(windows, k));
    let i = k / 2;
    if k % 2 == 1 {
        assert(nodes[k - 1] == main_node(windows, k - 1));
        if i > 0 {
            assert(nodes[k - 2] == main_node(windows, k - 2));
        }
    }
}

/// The main-track graph is a chain over the background and the clips that
/// ends in the label of the assembled track.
pub proof fn lemma_main_graph_well_formed(windows: Seq<Window>)
    requires
        0 < windows.len() <= usize::MAX,
    ensures
        well_formed(
            main_graph(windows),
            main_input_count(windows.len()),
            main_last_label(windows.len()),
        ),
{
    let nodes = main_graph(windows);
    let n = windows.len() as int;
    let inputs = main_input_count(windows.len());
    if n == 1 {
        assert(nodes[0].inputs()[0] == Label::Stream(0));
        assert(reads_stream(nodes, 0));
    } else {
        lemma_main_node(windows, 2 * n - 1);
        assert(nodes.last() == main_node(windows, 2 * n - 1));
        assert forall|k: int| 0 <= k < nodes.len() implies !((#[trigger] nodes[k]).output()
            is Stream) by {
            lemma_main_node(windows, k);
        }
        assert forall|j: int, k: int| 0 <= j < k < nodes.len() implies (#[trigger] nodes[j]).output()
            != (#[trigger] nodes[k]).output() by {
            lemma_main_node(windows, j);
            lemma_main_node(windows, k);
        }
        assert forall|k: int, q: int|
            0 <= k < nodes.len() && 0 <= q < nodes[k].inputs().len() implies resolved(
            nodes,
            inputs,
            k,
            #[trigger] nodes[k].inputs()[q],
        ) by {
            lemma_main_node(windows, k);
            let l = nodes[k].inputs()[q];
            assert(reads_earlier(nodes, inputs, k, l, main_position(l)));
        }
        assert forall|s: int| 0 <= s < inputs implies #[trigger] reads_stream(nodes, s) by {
            if s == 0 {
                assert(nodes[1] == main_node(windows, 1));
                assert(nodes[1].inputs()[0] == Label::Stream(0));
            } else {
                assert(nodes[2 * (s - 1)] == main_node(windows, 2 * (s - 1)));
                assert(nodes[2 * (s - 1)].inputs()[0] == Label::Stream(s as usize));
            }
        }
    }
}

/// Where the graph of a composition with `layers` overlays writes a label.
spec fn overlay_position(layers: int, l: Label) -> int {
    match l {
        Label::Base => 0,
        Label::Scaled(i) => 2 * i + 1,
        Label::Alpha(i) => 2 * i + 2,
        Label::Stage(i) => 1 + 2 * layers + i,
        Label::Video => 3 * layers,
        _ => -1,
    }
}

/// Stage `k` of the graph of a composition with one or more overlays.
spec fn overlay_node(layers: Seq<Layer>, k: int) -> FilterNode {
    if k == 0 {
        canvas_scale(Label::Base)
    } else if k < 1 + 2 * layers.len() {
        layer_prepare_node(layers, k - 1)
    } else {
        layer_draw_node(layers, k - 1 - 2 * layers.len())
    }
}

proof fn lemma_overlay_nodes(layers: Seq<Layer>)
    requires
        0 < layers.len(),
    ensures
        overlay_graph(layers).len() == 3 * layers.len() + 1,
        forall|k: int|
            0 <= k < 3 * layers.len() + 1 ==> #[trigger] overlay_graph(layers)[k] == overlay_node(
                layers,
                k,
            ),
{
}

proof fn lemma_overlay_node(layers: Seq<Layer>, k: int)
    requires
        0 < layers.len() < usize::MAX,
        0 <= k < 3 * layers.len() + 1,
    ensures
        ({
            let nodes = overlay_graph(layers);
            let node = nodes[k];
            &&& nodes.len() == 3 * layers.len() + 1
            &&& !(node.output() is Stream)
            &&& overlay_position(layers.len() as int, node.output()) == k
            &&& forall|q: int|
                0 <= q < node.inputs().len() ==> reads_earlier(
                    nodes,
                    layers.len() + 1,
                    k,
                    #[trigger] node.inputs()[q],
                    overlay_position(layers.len() as int, node.inputs()[q]),
                )
        }),
{
    lemma_overlay_nodes(layers);
    let nodes = overlay_graph(layers);
    let m = layers.len() as int;
    assert(nodes[k] == overlay_node(layers, k));
    if k == 0 {
    } else if k < 1 + 2 * m {
        if (k - 1) % 2 == 1 {
            assert(nodes[k - 1] == overlay_node(layers, k - 1));
        }
    } else {
        let i = k - 1 - 2 * m;
        assert(nodes[0] == overlay_node(layers, 0));
        assert(nodes[2 * i + 2] == overlay_node(layers, 2 * i + 2));
        if i > 0 {
            assert(nodes[k - 1] == overlay_node(layers, k - 1));
        }
    }
}

/// The graph of the final composition is a chain over the assembled main
/// track and the overlays that ends in `video`.
pub proof fn lemma_overlay_graph_well_formed(layers: Seq<Layer>)
    requires
        layers.len() < usize::MAX,
    ensures
        well_formed(overlay_graph(layers), layers.len() + 1, Label::Video),
{
    let nodes = overlay_graph(layers);
    let m = layers.len() as int;
    let inputs = layers.len() + 1;
    if m == 0 {
        assert(nodes[0].inputs()[0] == Label::Stream(0));
        assert(reads_stream(nodes, 0));
    } else {
        lemma_overlay_nodes(layers);
        assert(nodes.last() == overlay_node(layers, 3 * m));
        assert forall|k: int| 0 <= k < nodes.len() implies !((#[trigger] nodes[k]).output()
            is Stream) by {
            lemma_overlay_node(layers, k);
        }
        assert forall|j: int, k: int| 0 <= j < k < nodes.len() implies (#[trigger] nodes[j]).output()
            != (#[trigger] nodes[k]).output() by {
            lemma_overlay_node(layers, j);
            lemma_overlay_node(layers, k);
        }
        assert forall|k: int, q: int|
            0 <= k < nodes.len() && 0 <= q < nodes[k].inputs().len() implies resolved(
            nodes,
            inputs,
            k,
            #[trigger] nodes[k].inputs()[q],
        ) by {
            lemma_overlay_node(layers, k);
            let l = nodes[k].inputs()[q];
            assert(reads_earlier(nodes, inputs, k, l, overlay_position(m, l)));
        }
        assert forall|s: int| 0 <= s < inputs implies #[trigger] reads_stream(nodes, s) by {
            if s == 0 {
                assert(nodes[0] == overlay_node(layers, 0));
                assert(nodes[0].inputs()[0] == Label::Stream(0));
            } else {
                assert(nodes[2 * s - 1] == overlay_node(layers, 2 * s - 1));
                assert(nodes[2 * s - 1].inputs()[0] == Label::Stream(s as usize));
            }
        }
    }
}

proof fn lemma_label_marks(l: Label)
    ensures
        label_text(l).len() >= 3,
        l is Stream ==> is_digit(label_text(l)[0]),
        l is Main ==> label_text(l)[0] == 'm' && label_text(l).len() >= 5,
        l is Base ==> label_text(l)[0] == 'm' && label_text(l).len() == 4,
        l is Out ==> label_text(l)[0] == 'o' && label_text(l)[1] == 'u',
        l is Scaled ==> label_text(l)[0] == 'o' && label_text(l)[1] == 'v' && label_text(l).last()
            == 'd',
        l is Alpha ==> label_text(l)[0] == 'o' && label_text(l)[1] == 'v' && label_text(l).last()
            == 'a',
        l is Stage ==> label_text(l)[0] == 'o' && label_text(l)[1] == 'v' && is_digit(
            label_text(l).last(),
        ),
        l is Video ==> label_text(l)[0] == 'v',
{
    reveal_strlit(":v");
    reveal_strlit("main");
    reveal_strlit("out");
    reveal_strlit("overlay");
    reveal_strlit("_scaled");
    reveal_strlit("_alpha");
    reveal_strlit("video");
    match l {
        Label::Stream(i) => {
            lemma_decimal_is_digits(i as nat);
        },
        Label::Main(i) => {
            lemma_decimal_is_digits(i as nat);
        },
        Label::Out(i) => {
            lemma_decimal_is_digits(i as nat);
        },
        Label::Scaled(i) => {
            lemma_decimal_is_digits(i as nat);
        },
        Label::Alpha(i) => {
            lemma_decimal_is_digits(i as nat);
        },
        Label::Stage(i) => {
            lemma_decimal_is_digits(i as nat);
            let t = label_text(l);
            assert(t.last() == decimal(i as nat).last());
        },
        _ => {},
    }
}

/// Different labels are written differently: a name in the text of a graph
/// stands for one stream only.
pub proof fn lemma_label_names_distinct(a: Label, b: Label)
    requires
        label_text(a) == label_text(b),
    ensures
        a == b,
{
    lemma_label_marks(a);
    lemma_label_marks(b);
    let none = Seq::<char>::empty();
    match (a, b) {
        (Label::Stream(i), Label::Stream(j)) => {
            assert(none + decimal(i as nat) + ":v"@ =~= label_text(a));
            assert(none + decimal(j as nat) + ":v"@ =~= label_text(b));
            lemma_numbered_injective(none, i as nat, j as nat, ":v"@);
        },
        (Label::Main(i), Label::Main(j)) => {
            assert("main"@ + decimal(i as nat) + none =~= label_text(a));
            assert("main"@ + decimal(j as nat) + none =~= label_text(b));
            lemma_numbered_injective("main"@, i as nat, j as nat, none);
        },
        (Label::Out(i), Label::Out(j)) => {
            assert("out"@ + decimal(i as nat) + none =~= label_text(a));
            assert("out"@ + decimal(j as nat) + none =~= label_text(b));
            lemma_numbered_injective("out"@, i as nat, j as nat, none);
        },
        (Label::Scaled(i), Label::Scaled(j)) => {
            lemma_numbered_injective("overlay"@, i as nat, j as nat, "_scaled"@);
        },
        (Label::Alpha(i), Label::Alpha(j)) => {
            lemma_numbered_injective("overlay"@, i as nat, j as nat, "_alpha"@);
        },
        (Label::Stage(i), Label::Stage(j)) => {
            assert("overlay"@ + decimal(i as nat) + none =~= label_text(a));
            assert("overlay"@ + decimal(j as nat) + none =~= label_text(b));
            lemma_numbered_injective("overlay"@, i as nat, j as nat, none);
        },
        _ => {},
    }
}

/// In a well-formed graph no two stages write the same name.
pub proof fn lemma_stage_names_unique(nodes: Seq<FilterNode>, inputs: nat, last: Label)
    requires
        well_formed(nodes, inputs, last),
    ensures
        forall|j: int, k: int|
            0 <= j < nodes.len() && 0 <= k < nodes.len() && j != k ==> label_text(
                (#[trigger] nodes[j]).output(),
            ) != label_text((#[trigger] nodes[k]).output()),
{
    assert forall|j: int, k: int|
        0 <= j < nodes.len() && 0 <= k < nodes.len() && j != k implies label_text(
        (#[trigger] nodes[j]).output(),
    ) != label_text((#[trigger] nodes[k]).output()) by {
        if label_text(nodes[j].output()) == label_text(nodes[k].output()) {
            lemma_label_names_distinct(nodes[j].output(), nodes[k].output());
            if j < k {
                assert(nodes[j].output() != nodes[k].output());
            } else {
                assert(nodes[k].output() != nodes[j].output());
            }
        }
    }
}

fn canvas_scale_node(output: Label) -> (node: FilterNode)
    ensures
        node == canvas_scale(output),
{
    FilterNode::Scale {
        input: Label::Stream(0),
        width: CANVAS_WIDTH,
        height: CANVAS_HEIGHT,
        output,
    }
}

/// Builds the graph that assembles the main track from the windows of its
/// clips, in processing order.
pub fn build_main_graph(windows: &Vec<Window>) -> (nodes: Vec<FilterNode>)
    ensures
        nodes@ == main_graph(windows@),
        windows.len() > 0 ==> well_formed(
            nodes@,
            main_input_count(windows@.len()),
            main_last_label(windows@.len()),
        ),
{
    proof {
        if windows.len() > 0 {
            lemma_main_graph_well_formed(windows@);
        }
    }
    let n = windows.len();
    let mut nodes: Vec<FilterNode> = Vec::new();
    if n <= 1 {
        nodes.push(canvas_scale_node(Label::Out(0)));
        assert(nodes@ =~= main_graph(windows@));
        return nodes;
    }
    let mut i: usize = 0;
    while i < n
        invariant
            n == windows.len(),
            i <= n,
            nodes.len() == 2 * i,
            forall|k: int| 0 <= k < nodes.len() ==> #[trigger] nodes[k] == main_node(windows@, k),
        decreases n - i,
    {
        nodes.push(
            FilterNode::Scale {
                input: Label::Stream(i + 1),
                width: CANVAS_WIDTH,
                height: CANVAS_HEIGHT,
                output: Label::Main(i),
            },
        );
        let base = if i == 0 {
            Label::Stream(0)
        } else {
            Label::Out(i - 1)
        };
        nodes.push(
            FilterNode::Overlay {
                base,
                top: Label::Main(i),
                x: 0,
                y: 0,
                window: windows[i],
                output: Label::Out(i),
            },
        );
        i = i + 1;
    }
    assert(nodes@ =~= main_graph(windows@));
    nodes
}

/// Builds the graph of the final composition from the overlays, in
/// processing order.
pub fn build_overlay_graph(layers: &Vec<Layer>) -> (nodes: Vec<FilterNode>)
    ensures
        nodes@ == overlay_graph(layers@),
        layers.len() < usize::MAX ==> well_formed(nodes@, layers@.len() + 1, Label::Video),
{
    proof {
        if layers.len() < usize::MAX {
            lemma_overlay_graph_well_formed(layers@);
        }
    }
    let m = layers.len();
    let mut nodes: Vec<FilterNode> = Vec::new();
    if m == 0 {
        nodes.push(canvas_scale_node(Label::Video));
        assert(nodes@ =~= overlay_graph(layers@));
        return nodes;
    }
    nodes.push(canvas_scale_node(Label::Base));
    let mut i: usize = 0;
    while i < m
        invariant
            m == layers.len(),
            i <= m,
            nodes.len() == 1 + 2 * i,
            nodes[0] == canvas_scale(Label::Base),
            forall|k: int|
                0 <= k < 2 * i ==> #[trigger] nodes[k + 1] == layer_prepare_node(layers@, k),
        decreases m - i,
    {
        let ghost before = nodes@;
        nodes.push(
            FilterNode::Scale {
                input: Label::Stream(i + 1),
                width: layers[i].width,
                height: layers[i].height,
                output: Label::Scaled(i),
            },
        );
        nodes.push(
            FilterNode::Alpha {
                input: Label::Scaled(i),
                opacity: layers[i].opacity,
                output: Label::Alpha(i),
            },
        );
        proof {
            assert forall|k: int| 0 <= k < 2 * (i + 1) implies #[trigger] nodes[k + 1]
                == layer_prepare_node(layers@, k) by {
                if k < 2 * i {
                    assert(nodes[k + 1] == before[k + 1]);
                }
            }
        }
        i = i + 1;
    }
    let mut j: usize = 0;
    while j < m
        invariant
            m == layers.len(),
            0 < m,
            j <= m,
            nodes.len() == 1 + 2 * m + j,
            nodes[0] == canvas_scale(Label::Base),
            forall|k: int|
                0 <= k < 2 * m ==> #[trigger] nodes[k + 1] == layer_prepare_node(layers@, k),
            forall|k: int|
                0 <= k < j ==> #[trigger] nodes[1 + 2 * m + k] == layer_draw_node(layers@, k),
        decreases m - j,
    {
        let ghost before = nodes@;
        let base = if j == 0 {
            Label::Base
        } else {
            Label::Stage(j - 1)
        };
        let output = if j == m - 1 {
            Label::Video
        } else {
            Label::Stage(j)
        };
        nodes.push(
            FilterNode::Overlay {
                base,
                top: Label::Alpha(j),
                x: layers[j].x,
                y: layers[j].y,
                window: layers[j].window,
                output,
            },
        );
        proof {
            assert forall|k: int| 0 <= k < 2 * m implies #[trigger] nodes[k + 1]
                == layer_prepare_node(layers@, k) by {
                assert(nodes[k + 1] == before[k + 1]);
            }
            assert forall|k: int| 0 <= k < j + 1 implies #[trigger] nodes[1 + 2 * m + k]
                == layer_draw_node(layers@, k) by {
                if k < j {
                    assert(nodes[1 + 2 * m + k] == before[1 + 2 * m + k]);
                }
            }
        }
        j = j + 1;
    }
    proof {
        let expected = overlay_graph(layers@);
        assert(nodes@.len() == expected.len());
        assert forall|k: int| 0 <= k < nodes@.len() implies nodes@[k] == expected[k] by {
            if k == 0 {
            } else if k < 1 + 2 * m {
                assert(nodes[(k - 1) + 1] == layer_prepare_node(layers@, k - 1));
            } else {
                assert(nodes[1 + 2 * m + (k - 1 - 2 * m)] == layer_draw_node(
                    layers@,
                    k - 1 - 2 * m,
                ));
            }
        }
        assert(nodes@ =~= expected);
    }
    nodes
}

/// Computes the label of the assembled main track of `clips` clips.
pub fn last_main_label(clips: usize) -> (l: Label)
    ensures
        l == main_last_label(clips as nat),
{
    if clips <= 1 {
        Label::Out(0)
    } else {
        Label::Out(clips - 1)
    }
}

/// Writes a label as text, without brackets.
pub fn render_label(l: Label) -> (s: String)
    ensures
        s@ == label_text(l),
{
    match l {
        Label::Stream(i) => {
            let mut s = render_index(i);
            s.append(":v");
            s
        },
        Label::Main(i) => {
            let mut s = String::from_str("main");
            s.append(render_index(i).as_str());
            s
        },
        Label::Out(i) => {
            let mut s = String::from_str("out");
            s.append(render_index(i).as_str());
            s
        },
        Label::Base => String::from_str("main"),
        Label::Scaled(i) => {
            let mut s = String::from_str("overlay");
            s.append(render_index(i).as_str());
            s.append("_scaled");
            s
        },
        Label::Alpha(i) => {
            let mut s = String::from_str("overlay");
            s.append(render_index(i).as_str());
            s.append("_alpha");
            s
        },
        Label::Stage(i) => {
            let mut s = String::from_str("overlay");
            s.append(render_index(i).as_str());
            s
        },
        Label::Video => String::from_str("video"),
    }
}

fn append_pad(s: &mut String, l: Label)
    ensures
        final(s)@ == old(s)@ + pad_text(l),
{
    let name = render_label(l);
    let mut pad = String::from_str("[");
    pad.append(name.as_str());
    pad.append("]");
    s.append(pad.as_str());
}

fn render_enable(w: Window) -> (s: String)
    ensures
        s@ == enable_text(w),
{
    let mut s = String::from_str("enable='gte(t,");
    s.append(render_millionths(w.start as i128).as_str());
    s.append(")*lt(t,");
    s.append(render_millionths(w.end as i128).as_str());
    s.append(")'");
    s
}

/// Writes one stage as text.
pub fn render_node(node: &FilterNode) -> (s: String)
    ensures
        s@ == node_text(*node),
{
    let mut s = String::new();
    match *node {
        FilterNode::Scale { input, width, height, output } => {
            append_pad(&mut s, input);
            s.append("scale=");
            s.append(render_signed(width as i64).as_str());
            s.append(":");
            s.append(render_signed(height as i64).as_str());
            append_pad(&mut s, output);
            assert(s@ =~= node_text(*node));
        },
        FilterNode::Alpha { input, opacity, output } => {
            append_pad(&mut s, input);
            s.append("format=yuva420p,colorchannelmixer=aa=");
            s.append(render_millionths(opacity as i128).as_str());
            append_pad(&mut s, output);
            assert(s@ =~= node_text(*node));
        },
        FilterNode::Overlay { base, top, x, y, window, output } => {
            append_pad(&mut s, base);
            append_pad(&mut s, top);
            s.append("overlay=");
            s.append(render_signed(x as i64).as_str());
            s.append(":");
            s.append(render_signed(y as i64).as_str());
            s.append(":");
            s.append(render_enable(window).as_str());
            append_pad(&mut s, output);
            assert(s@ =~= node_text(*node));
        },
    }
    s
}

/// Writes a graph as the text that the tool reads.
pub fn render_graph(nodes: &Vec<FilterNode>) -> (s: String)
    ensures
        s@ == graph_text(nodes@),
{
    let mut s = String::new();
    let mut k: usize = 0;
    assert(nodes@.take(0) =~= Seq::<FilterNode>::empty());
    while k < nodes.len()
        invariant
            k <= nodes.len(),
            s@ == graph_text(nodes@.take(k as int)),
        decreases nodes.len() - k,
    {
        let ghost upto = nodes@.take(k + 1);
        assert(upto.drop_last() =~= nodes@.take(k as int));
        assert(upto.last() == nodes@[k as int]);
        if k > 0 {
            s.append(";");
        }
        s.append(render_node(&nodes[k]).as_str());
        assert(s@ =~= graph_text(upto));
        k = k + 1;
    }
    assert(nodes@.take(k as int) =~= nodes@);
    s
}

} // verus!
