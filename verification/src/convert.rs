//! From a subscription body to the nodes it lists: the body is Base64
//! decoded where it is Base64, line ends are normalised, and every
//! non-empty line that is a supported proxy URI becomes a node.

use vstd::prelude::*;
use vstd::string::StringExecFns;
use crate::builders::{
    build_simple_clash, build_simple_singbox, build_simple_surge, spec_simple_clash,
    spec_simple_singbox, spec_simple_surge,
};
use crate::cli::{OutputFormat, TemplateArgs};
use crate::parsers::{spec_parse_proxy, ProxyConfig, ProxyParser, ProxyView};
use crate::templates::defaults::{
    generate_clash_template, generate_singbox_template, generate_surge_template, singbox_template_tree,
    CLASH_TEMPLATE, SURGE_TEMPLATE,
};
use crate::utils::value::{tree, ConfigValue, Tree};
use crate::utils::base64_utils::{decode, spec_decode};
use crate::utils::text::{
    chars_to_string, lines, lines_of, nonempty, replace_all, replace_all_chars, str_chars, trim,
    trim_chars, views,
};

verus! {

broadcast use vstd::seq_lib::group_seq_properties;

/// What `String::from_utf8_lossy` makes of bytes: their UTF-8 text, each
/// invalid sequence replaced by U+FFFD. A function of the bytes alone.
pub uninterp spec fn utf8_lossy(bytes: Seq<u8>) -> Seq<char>;

pub open spec fn is_ascii_bytes(b: Seq<u8>) -> bool {
    forall|j: int| 0 <= j < b.len() ==> b[j] < 128
}

pub open spec fn ascii_chars(b: Seq<u8>) -> Seq<char> {
    b.map_values(|x: u8| x as char)
}

/// Calls `String::from_utf8_lossy`. The contract names its result
/// `utf8_lossy(bytes)`, and states what its documentation gives for valid
/// UTF-8: the text unchanged, which for ASCII bytes is one char per byte.
/// What it makes of other bytes is left to the name.
#[verifier::external_body]
fn from_utf8_lossy(bytes: &[u8]) -> (res: String)
    ensures
        res@ == utf8_lossy(bytes@),
        !is_ascii_bytes(bytes@) || res@ == ascii_chars(bytes@),
{
    String::from_utf8_lossy(bytes).into_owned()
}

/// Why a subscription gave no node.
#[derive(Debug, Clone, Copy, PartialEq, Eq, Structural)]
pub enum ConvertError {
    /// No line of the body is a supported proxy URI.
    NoValidProxies,
}

impl ConvertError {
    /// The message the command line prints.
    pub fn message(&self) -> (res: String)
        ensures
            res@ == "No valid proxy URLs found in input"@,
    {
        String::from_str("No valid proxy URLs found in input")
    }
}

/// The text with `\r\n` and then lone `\r` turned into `\n`.
pub open spec fn normalize(t: Seq<char>) -> Seq<char> {
    replace_all(replace_all(t, "\r\n"@, "\n"@), "\r"@, "\n"@)
}

/// The nodes of a run of lines: each line trimmed, and each non-empty
/// one that parses, in order.
pub open spec fn nodes_of_lines(ls: Seq<Seq<char>>) -> Seq<ProxyView>
    decreases ls.len(),
{
    if ls.len() == 0 {
        Seq::empty()
    } else {
        let before = nodes_of_lines(ls.drop_last());
        let t = trim(ls.last());
        if nonempty(t) && spec_parse_proxy(t) is Ok {
            before.push(spec_parse_proxy(t)->Ok_0)
        } else {
            before
        }
    }
}

/// The nodes a decoded subscription text lists.
pub open spec fn nodes_of_text(t: Seq<char>) -> Seq<ProxyView> {
    nodes_of_lines(lines(normalize(t)))
}

/// The text of a subscription body: its Base64 decoding read as UTF-8
/// where it is Base64, else the body itself.
pub open spec fn subscription_text(input: Seq<char>) -> Seq<char> {
    match spec_decode(input) {
        Ok(bytes) => utf8_lossy(bytes),
        Err(_) => input,
    }
}

pub open spec fn node_views(v: Seq<ProxyConfig>) -> Seq<ProxyView> {
    v.map_values(|p: ProxyConfig| p@)
}

/// The nodes a subscription text lists; an error where it lists none.
pub open spec fn spec_nodes(t: Seq<char>) -> Result<Seq<ProxyView>, ConvertError> {
    if nodes_of_text(t).len() == 0 {
        Err(ConvertError::NoValidProxies)
    } else {
        Ok(nodes_of_text(t))
    }
}

/// The nodes of a (decoded) subscription text: every line that, trimmed,
/// is a supported proxy URI, in order; lines that are not are skipped.
pub fn parse_proxy_lines(text: &str) -> (res: Result<Vec<ProxyConfig>, ConvertError>)
    ensures
        match spec_nodes(text@) {
            Ok(ns) => res matches Ok(v) && node_views(v@) == ns,
            Err(e) => res == Err::<Vec<ProxyConfig>, ConvertError>(e),
        },
{
    let c = str_chars(text);
    let crlf = str_chars("\r\n");
    let cr = str_chars("\r");
    let lf = str_chars("\n");
    proof {
        reveal_strlit("\r\n");
        reveal_strlit("\r");
    }
    assert(crlf@.len() == 2 && cr@.len() == 1);
    let a = replace_all_chars(c.as_slice(), crlf.as_slice(), lf.as_slice());
    let b = replace_all_chars(a.as_slice(), cr.as_slice(), lf.as_slice());
    let ls = lines_of(b.as_slice());
    let ghost lv = views(ls@);
    let mut nodes: Vec<ProxyConfig> = Vec::new();
    let mut i: usize = 0;
    while i < ls.len()
        invariant
            i <= ls.len(),
            lv == views(ls@),
            lv == lines(normalize(text@)),
            node_views(nodes@) == nodes_of_lines(lv.take(i as int)),
        decreases ls.len() - i,
    {
        assert(lv.take(i + 1).drop_last() =~= lv.take(i as int));
        assert(lv.take(i + 1).last() == ls@[i as int]@);
        let t = trim_chars(ls[i].as_slice());
        if t.len() > 0 {
            let s = chars_to_string(t.as_slice());
            match ProxyParser::parse(s.as_str()) {
                Ok(p) => {
                    let ghost before = node_views(nodes@);
                    nodes.push(p);
                    assert(node_views(nodes@) =~= before.push(p@));
                },
                Err(_) => {},
            }
        }
        i = i + 1;
    }
    assert(lv.take(ls.len() as int) =~= lv);
    if nodes.len() == 0 {
        assert(node_views(nodes@).len() == 0);
        return Err(ConvertError::NoValidProxies);
    }
    Ok(nodes)
}

/// The nodes of a subscription body, Base64 or plain.
pub fn parse_subscription(input: &str) -> (res: Result<Vec<ProxyConfig>, ConvertError>)
    ensures
        match spec_nodes(subscription_text(input@)) {
            Ok(ns) => res matches Ok(v) && node_views(v@) == ns,
            Err(e) => res == Err::<Vec<ProxyConfig>, ConvertError>(e),
        },
{
    match decode(input) {
        Ok(bytes) => {
            let text = from_utf8_lossy(bytes.as_slice());
            parse_proxy_lines(text.as_str())
        },
        Err(_) => parse_proxy_lines(input),
    }
}

/// A finished configuration: a document to write as YAML or as JSON, or
/// text to write as it is.
#[derive(Debug)]
pub enum Rendered {
    Yaml(ConfigValue),
    Json(ConfigValue),
    Text(String),
}

pub enum RenderedView {
    Yaml(Tree),
    Json(Tree),
    Text(Seq<char>),
}

impl View for Rendered {
    type V = RenderedView;

    open spec fn view(&self) -> RenderedView {
        match self {
            Rendered::Yaml(v) => RenderedView::Yaml(tree(*v)),
            Rendered::Json(v) => RenderedView::Json(tree(*v)),
            Rendered::Text(s) => RenderedView::Text(s@),
        }
    }
}

/// The configuration of a format built without a template.
pub open spec fn spec_render_plain(format: OutputFormat, proxies: Seq<ProxyConfig>) -> RenderedView {
    match format {
        OutputFormat::Clash => RenderedView::Yaml(spec_simple_clash(proxies)),
        OutputFormat::Singbox => RenderedView::Json(spec_simple_singbox(proxies)),
        OutputFormat::Surge => RenderedView::Text(spec_simple_surge(proxies)),
    }
}

/// Builds the configuration of a format without a template: a Clash YAML
/// document, a Sing-Box JSON document, or Surge text.
pub fn render_plain(format: OutputFormat, proxies: &[ProxyConfig]) -> (res: Rendered)
    ensures
        res@ == spec_render_plain(format, proxies@),
{
    match format {
        OutputFormat::Clash => Rendered::Yaml(build_simple_clash(proxies)),
        OutputFormat::Singbox => Rendered::Json(build_simple_singbox(proxies)),
        OutputFormat::Surge => Rendered::Text(build_simple_surge(proxies)),
    }
}

/// The default template of a format.
pub open spec fn spec_default_template(format: OutputFormat) -> RenderedView {
    match format {
        OutputFormat::Clash => RenderedView::Text(CLASH_TEMPLATE@),
        OutputFormat::Singbox => RenderedView::Json(singbox_template_tree()),
        OutputFormat::Surge => RenderedView::Text(SURGE_TEMPLATE@),
    }
}

/// The default template the `template` command writes.
pub fn generate_template(args: &TemplateArgs) -> (res: Rendered)
    ensures
        res@ == spec_default_template(args.format),
{
    match args.format {
        OutputFormat::Clash => Rendered::Text(generate_clash_template()),
        OutputFormat::Singbox => Rendered::Json(generate_singbox_template()),
        OutputFormat::Surge => Rendered::Text(generate_surge_template()),
    }
}

} // verus!
