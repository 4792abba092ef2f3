//! Turning text with `[text](tag)` spans into a string with ANSI color escapes.
use vstd::prelude::*;
use crate::numbers::{format_number, format_number_spec};
use crate::parse::{
    join_sources, lemma_parse_round_trip, parse_spec, parse_text, source_of, Fragment,
    FragmentView,
};
use crate::registry::{parse_color, resolve, ColorRegistry};
use crate::rgb::{ansi_of, push_reset, reset_seq, RGB};
use crate::text::{chars_of, push_char, push_range, push_str, str_eq, starts_with};

verus! {

/// Where paths are abbreviated from: the working directory and the home directory,
/// each absent when it could not be found.
pub struct PathContext {
    pub cwd: Option<String>,
    pub home: Option<String>,
}

pub open spec fn opt_view(o: Option<String>) -> Option<Seq<char>> {
    match o {
        Some(s) => Some(s@),
        None => None,
    }
}

/// How a tag rewrites the text it is on.
#[derive(Clone, Copy, Debug, PartialEq, Eq, Structural)]
pub enum SemanticTag {
    /// Integers get their digits grouped by threes.
    Number,
    /// Paths under the working or home directory are shortened to `.` or `~`.
    FilenameLike,
    /// The text is left as it is.
    Plain,
}

pub open spec fn semantic_kind(tag: Seq<char>) -> SemanticTag {
    if tag == "number"@ {
        SemanticTag::Number
    } else if tag == "filename"@ || tag == "filepath"@ {
        SemanticTag::FilenameLike
    } else {
        SemanticTag::Plain
    }
}

/// The one classification step from a tag to its rewrite rule.
pub fn classify(tag: &str) -> (r: SemanticTag)
    ensures
        r == semantic_kind(tag@),
{
    if str_eq(tag, "number") {
        SemanticTag::Number
    } else if str_eq(tag, "filename") || str_eq(tag, "filepath") {
        SemanticTag::FilenameLike
    } else {
        SemanticTag::Plain
    }
}

/// The color of the `.` or `~` that stands for an abbreviated directory.
pub open spec fn prefix_color() -> RGB {
    RGB { r: 237, g: 85, b: 43 }
}

/// A path shortened by one directory prefix: `mark` in the prefix color, then the
/// rest of the path in the tag's color.
pub open spec fn abbreviated(mark: char, rest: Seq<char>, tag_color: RGB) -> Seq<char> {
    ansi_of(prefix_color()) + seq![mark] + ansi_of(tag_color) + rest
}

/// A file name or path with the working directory (when it is a proper prefix)
/// written as `.`, or else the home directory written as `~`.
pub open spec fn format_path_spec(
    text: Seq<char>,
    tag_color: RGB,
    cwd: Option<Seq<char>>,
    home: Option<Seq<char>>,
) -> Seq<char> {
    if cwd is Some && cwd->Some_0.len() > 0 && text != cwd->Some_0 && cwd->Some_0.is_prefix_of(text) {
        abbreviated('.', text.skip(cwd->Some_0.len() as int), tag_color)
    } else if home is Some && home->Some_0.is_prefix_of(text) {
        abbreviated('~', text.skip(home->Some_0.len() as int), tag_color)
    } else {
        text
    }
}

/// The text of a span after the rewrite its tag calls for.
pub open spec fn format_text_spec(
    text: Seq<char>,
    tag: Seq<char>,
    tag_color: RGB,
    cwd: Option<Seq<char>>,
    home: Option<Seq<char>>,
) -> Seq<char> {
    match semantic_kind(tag) {
        SemanticTag::Number => format_number_spec(text),
        SemanticTag::FilenameLike => format_path_spec(text, tag_color, cwd, home),
        SemanticTag::Plain => text,
    }
}

fn format_path(text: &str, tag_color: RGB, ctx: &PathContext) -> (r: String)
    ensures
        r@ == format_path_spec(text@, tag_color, opt_view(ctx.cwd), opt_view(ctx.home)),
{
    let v = chars_of(text);
    let n = v.len();
    let marked: Option<(char, usize)> = match &ctx.cwd {
        Some(c) if c.unicode_len() > 0 && !str_eq(text, c.as_str()) && starts_with(&v, c.as_str()) => Some(('.', c.unicode_len())),
        _ => match &ctx.home {
            Some(h) if starts_with(&v, h.as_str()) => Some(('~', h.unicode_len())),
            _ => None,
        },
    };
    match marked {
        Some((mark, skip)) => {
            let mut r = prefix_color_exec().to_ansi();
            push_char(&mut r, mark);
            let t = tag_color.to_ansi();
            push_str(&mut r, t.as_str());
            push_range(&mut r, &v, skip, n);
            assert(r@ =~= format_path_spec(text@, tag_color, opt_view(ctx.cwd), opt_view(ctx.home)));
            r
        },
        None => String::from_str(text),
    }
}

fn prefix_color_exec() -> (c: RGB)
    ensures
        c == prefix_color(),
{
    RGB { r: 237, g: 85, b: 43 }
}

/// Applies the rewrite that `tag` calls for to the text of a span colored `tag_color`.
pub fn format_text(text: &str, tag: &str, tag_color: RGB, ctx: &PathContext) -> (r: String)
    ensures
        r@ == format_text_spec(text@, tag@, tag_color, opt_view(ctx.cwd), opt_view(ctx.home)),
{
    match classify(tag) {
        SemanticTag::Number => format_number(text),
        SemanticTag::FilenameLike => format_path(text, tag_color, ctx),
        SemanticTag::Plain => String::from_str(text),
    }
}

/// The color of the text outside spans: what `tag` resolves to, or neutral gray.
pub open spec fn base_color(aliases: Map<Seq<char>, Seq<char>>, tag: Seq<char>) -> RGB {
    match resolve(aliases, tag) {
        Some(c) => c,
        None => RGB { r: 128, g: 128, b: 128 },
    }
}

/// The output for one fragment: plain text as it is; a span whose tag resolves in
/// its color, rewritten, then the base color again; any other span written back
/// as `[text](tag)`.
pub open spec fn fragment_output(
    aliases: Map<Seq<char>, Seq<char>>,
    f: FragmentView,
    base: RGB,
    cwd: Option<Seq<char>>,
    home: Option<Seq<char>>,
) -> Seq<char> {
    match f.tag {
        None => f.text,
        Some(t) => match resolve(aliases, t) {
            Some(c) => ansi_of(c) + format_text_spec(f.text, t, c, cwd, home) + ansi_of(base),
            None => source_of(f),
        },
    }
}

pub open spec fn fragments_output(
    aliases: Map<Seq<char>, Seq<char>>,
    fs: Seq<FragmentView>,
    base: RGB,
    cwd: Option<Seq<char>>,
    home: Option<Seq<char>>,
) -> Seq<char>
    decreases fs.len(),
{
    if fs.len() == 0 {
        Seq::empty()
    } else {
        fragments_output(aliases, fs.drop_last(), base, cwd, home) + fragment_output(
            aliases,
            fs.last(),
            base,
            cwd,
            home,
        )
    }
}

/// The rendering of `text` on the base color named by `base_tag`: the base color's
/// escape, the output of each fragment, and a full reset.
pub open spec fn render_spec(
    aliases: Map<Seq<char>, Seq<char>>,
    base_tag: Seq<char>,
    text: Seq<char>,
    cwd: Option<Seq<char>>,
    home: Option<Seq<char>>,
) -> Seq<char> {
    let base = base_color(aliases, base_tag);
    ansi_of(base) + fragments_output(aliases, parse_spec(text), base, cwd, home) + reset_seq()
}

/// Renders `s` with the inline spans colored, on the base color named by `color`.
pub fn render(colors: &ColorRegistry, color: &str, s: &str, ctx: &PathContext) -> (r: String)
    requires
        colors.wf(),
    ensures
        r@ == render_spec(colors@, color@, s@, opt_view(ctx.cwd), opt_view(ctx.home)),
{
    let ghost cwd = opt_view(ctx.cwd);
    let ghost home = opt_view(ctx.home);
    let base = match parse_color(colors, color) {
        Some(c) => c,
        None => RGB::gray(),
    };
    let base_ansi = base.to_ansi();
    let fragments = parse_text(s);
    let ghost fs = fragments@.map_values(|f: Fragment| f@);
    let mut out = base.to_ansi();
    let mut i: usize = 0;
    while i < fragments.len()
        invariant
            colors.wf(),
            fs == fragments@.map_values(|f: Fragment| f@),
            fs == parse_spec(s@),
            base == base_color(colors@, color@),
            base_ansi@ == ansi_of(base),
            cwd == opt_view(ctx.cwd),
            home == opt_view(ctx.home),
            i <= fragments@.len(),
            out@ == ansi_of(base) + fragments_output(colors@, fs.take(i as int), base, cwd, home),
        decreases fragments@.len() - i,
    {
        let f = &fragments[i];
        let ghost before = out@;
        match &f.tag {
            None => {
                push_str(&mut out, f.text.as_str());
            },
            Some(t) => match parse_color(colors, t.as_str()) {
                Some(c) => {
                    let a = c.to_ansi();
                    push_str(&mut out, a.as_str());
                    let text = format_text(f.text.as_str(), t.as_str(), c, ctx);
                    push_str(&mut out, text.as_str());
                    push_str(&mut out, base_ansi.as_str());
                },
                None => {
                    push_char(&mut out, '[');
                    push_str(&mut out, f.text.as_str());
                    push_char(&mut out, ']');
                    push_char(&mut out, '(');
                    push_str(&mut out, t.as_str());
                    push_char(&mut out, ')');
                },
            },
        }
        assert(fs.take(i + 1).drop_last() =~= fs.take(i as int));
        assert(fs[i as int] == f@);
        assert(out@ =~= before + fragment_output(colors@, fs[i as int], base, cwd, home));
        i = i + 1;
    }
    assert(fs.take(fragments@.len() as int) =~= fs);
    push_reset(&mut out);
    assert(out@ =~= render_spec(colors@, color@, s@, cwd, home));
    out
}

/// [`render`] followed by a line break.
pub fn render_line(colors: &ColorRegistry, color: &str, s: &str, ctx: &PathContext) -> (r: String)
    requires
        colors.wf(),
    ensures
        r@ == render_spec(colors@, color@, s@, opt_view(ctx.cwd), opt_view(ctx.home)).push('\n'),
{
    let mut r = render(colors, color, s, ctx);
    push_char(&mut r, '\n');
    r
}

/// No span of `text` has a tag that resolves under `aliases`.
pub open spec fn no_resolvable_tags(aliases: Map<Seq<char>, Seq<char>>, text: Seq<char>) -> bool {
    forall|i: int|
        0 <= i < parse_spec(text).len() ==> (#[trigger] parse_spec(text)[i]).tag is Some ==> resolve(
            aliases,
            parse_spec(text)[i].tag->Some_0,
        ) is None
}

/// `text` holds no `[text](tag)` span at all.
pub open spec fn no_spans(text: Seq<char>) -> bool {
    forall|i: int| 0 <= i < parse_spec(text).len() ==> (#[trigger] parse_spec(text)[i]).tag is None
}

proof fn lemma_unresolved_output(
    aliases: Map<Seq<char>, Seq<char>>,
    fs: Seq<FragmentView>,
    base: RGB,
    cwd: Option<Seq<char>>,
    home: Option<Seq<char>>,
)
    requires
        forall|i: int|
            0 <= i < fs.len() ==> (#[trigger] fs[i]).tag is Some ==> resolve(
                aliases,
                fs[i].tag->Some_0,
            ) is None,
    ensures
        fragments_output(aliases, fs, base, cwd, home) == join_sources(fs),
    decreases fs.len(),
{
    if fs.len() > 0 {
        let init = fs.drop_last();
        assert forall|i: int| 0 <= i < init.len() && (#[trigger] init[i]).tag is Some implies resolve(
            aliases,
            init[i].tag->Some_0,
        ) is None by {
            assert(init[i] == fs[i]);
        }
        lemma_unresolved_output(aliases, init, base, cwd, home);
        assert(fs.last() == fs[fs.len() - 1]);
    }
}

/// Text whose spans all have tags that resolve to no color renders as the text
/// itself, exactly, between the base color's escape and the final reset: each
/// such span is written back as `[text](tag)`.
pub proof fn lemma_render_unresolved_round_trip(
    aliases: Map<Seq<char>, Seq<char>>,
    base_tag: Seq<char>,
    text: Seq<char>,
    cwd: Option<Seq<char>>,
    home: Option<Seq<char>>,
)
    requires
        no_resolvable_tags(aliases, text),
    ensures
        render_spec(aliases, base_tag, text, cwd, home) == ansi_of(base_color(aliases, base_tag))
            + text + reset_seq(),
{
    lemma_unresolved_output(aliases, parse_spec(text), base_color(aliases, base_tag), cwd, home);
    lemma_parse_round_trip(text);
}

/// Text with no span renders unchanged, between the base color's escape and the
/// final reset.
pub proof fn lemma_render_plain_text(
    aliases: Map<Seq<char>, Seq<char>>,
    base_tag: Seq<char>,
    text: Seq<char>,
    cwd: Option<Seq<char>>,
    home: Option<Seq<char>>,
)
    requires
        no_spans(text),
    ensures
        render_spec(aliases, base_tag, text, cwd, home) == ansi_of(base_color(aliases, base_tag))
            + text + reset_seq(),
{
    lemma_render_unresolved_round_trip(aliases, base_tag, text, cwd, home);
}

} // verus!
