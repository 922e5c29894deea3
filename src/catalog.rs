use vstd::prelude::*;

verus! {

/// A rendering engine of the diagram backend.
#[derive(Clone, Copy, Debug, PartialEq, Eq, Structural)]
pub enum Backend {
    PlantUml,
    VegaLite,
    Mermaid,
}

/// The backend's name of an engine, as it stands in a URL path.
pub open spec fn backend_name(b: Backend) -> Seq<char> {
    match b {
        Backend::PlantUml => seq!['p', 'l', 'a', 'n', 't', 'u', 'm', 'l'],
        Backend::VegaLite => seq!['v', 'e', 'g', 'a', 'l', 'i', 't', 'e'],
        Backend::Mermaid => seq!['m', 'e', 'r', 'm', 'a', 'i', 'd'],
    }
}

impl Backend {
    /// The engine's name in a URL path.
    pub fn as_str(&self) -> (r: &'static str)
        ensures
            r@ == backend_name(*self),
    {
        proof {
            reveal_strlit("plantuml");
            reveal_strlit("vegalite");
            reveal_strlit("mermaid");
        }
        match self {
            Backend::PlantUml => "plantuml",
            Backend::VegaLite => "vegalite",
            Backend::Mermaid => "mermaid",
        }
    }
}

/// What the PlantUML tool does, as told to callers.
pub const PLANTUML_DESCRIPTION: &'static str = "Génère des schémas d'architecture, séquences et classes via PlantUML.";

/// What the PlantUML tool's `source` argument holds.
pub const PLANTUML_SOURCE_DESCRIPTION: &'static str = "Code PlantUML (ex: @startuml...)";

/// What the Vega-Lite tool does, as told to callers.
pub const VEGA_DESCRIPTION: &'static str =
    "Generates data charts (bar, line, pie, etc.) using a Vega-Lite JSON specification. IMPORTANT: the provided JSON must be strictly valid. All numeric values must be pre-computed literals (e.g. 10521.96). Arithmetic expressions like '4332.57 + 6189.39' are FORBIDDEN and will cause an error. Aggregate and compute all values BEFORE building the JSON spec.";

/// What the Vega-Lite tool's `source` argument holds.
pub const VEGA_SOURCE_DESCRIPTION: &'static str =
    "A strictly valid Vega-Lite JSON specification. All numeric values must be literals (number type), never expressions. The JSON must be directly parseable as-is.";

pub open spec fn render_plantuml() -> Seq<char> {
    seq!['r', 'e', 'n', 'd', 'e', 'r', '_', 'p', 'l', 'a', 'n', 't', 'u', 'm', 'l']
}

pub open spec fn render_vega() -> Seq<char> {
    seq!['r', 'e', 'n', 'd', 'e', 'r', '_', 'v', 'e', 'g', 'a']
}

pub open spec fn render_mermaid() -> Seq<char> {
    seq!['r', 'e', 'n', 'd', 'e', 'r', '_', 'm', 'e', 'r', 'm', 'a', 'i', 'd']
}

/// The engine that renders a tool's diagrams; a name that no tool has falls back to Mermaid.
pub open spec fn backend_of(tool: Seq<char>) -> Backend {
    if tool == render_plantuml() {
        Backend::PlantUml
    } else if tool == render_vega() {
        Backend::VegaLite
    } else {
        Backend::Mermaid
    }
}

/// Whether two strings hold the same characters.
pub fn str_equal(a: &str, b: &str) -> (r: bool)
    ensures
        r == (a@ == b@),
{
    let n = a.unicode_len();
    if n != b.unicode_len() {
        return false;
    }
    let mut i: usize = 0;
    while i < n
        invariant
            n == a@.len(),
            n == b@.len(),
            i <= n,
            a@.subrange(0, i as int) == b@.subrange(0, i as int),
        decreases n - i,
    {
        if a.get_char(i) != b.get_char(i) {
            return false;
        }
        assert(a@.subrange(0, i + 1) =~= a@.subrange(0, i as int).push(a@[i as int]));
        assert(b@.subrange(0, i + 1) =~= b@.subrange(0, i as int).push(b@[i as int]));
        i = i + 1;
    }
    assert(a@ =~= a@.subrange(0, n as int));
    assert(b@ =~= b@.subrange(0, n as int));
    true
}

/// The engine for a tool name, with Mermaid for any name that no tool has.
pub fn backend_for_tool(name: &str) -> (r: Backend)
    ensures
        r == backend_of(name@),
{
    proof {
        reveal_strlit("render_plantuml");
        reveal_strlit("render_vega");
        assert("render_plantuml"@ =~= render_plantuml());
        assert("render_vega"@ =~= render_vega());
        assert(render_vega().len() != render_plantuml().len());
    }
    if str_equal(name, "render_plantuml") {
        Backend::PlantUml
    } else if str_equal(name, "render_vega") {
        Backend::VegaLite
    } else {
        Backend::Mermaid
    }
}

/// A tool that callers may invoke: its name, what it does, the engine behind it, and
/// the description of its one `source` argument.
pub struct ToolDescriptor {
    pub name: String,
    pub description: String,
    pub backend: Backend,
    pub source_description: String,
}

/// The engine that a descriptor names is the one its tool name maps to.
pub open spec fn descriptor_consistent(t: ToolDescriptor) -> bool {
    backend_of(t.name@) == t.backend
}

/// The catalog: the PlantUML and the Vega-Lite renderers, in that order, each with its
/// name, its descriptions and the engine that its tool name maps to.
pub open spec fn is_tool_catalog(r: Seq<ToolDescriptor>) -> bool {
    &&& r.len() == 2
    &&& r[0].name@ == render_plantuml()
    &&& r[0].description@ == PLANTUML_DESCRIPTION@
    &&& r[0].backend == Backend::PlantUml
    &&& r[0].source_description@ == PLANTUML_SOURCE_DESCRIPTION@
    &&& r[1].name@ == render_vega()
    &&& r[1].description@ == VEGA_DESCRIPTION@
    &&& r[1].backend == Backend::VegaLite
    &&& r[1].source_description@ == VEGA_SOURCE_DESCRIPTION@
    &&& forall|i: int| 0 <= i < r.len() ==> descriptor_consistent(#[trigger] r[i])
}

/// Two descriptors that read the same to a caller.
pub open spec fn same_descriptor(a: ToolDescriptor, b: ToolDescriptor) -> bool {
    &&& a.name@ == b.name@
    &&& a.description@ == b.description@
    &&& a.backend == b.backend
    &&& a.source_description@ == b.source_description@
}

/// The catalog is fixed: any two lists that meet it hold the same tools in the same order.
pub proof fn lemma_catalog_unique(a: Seq<ToolDescriptor>, b: Seq<ToolDescriptor>)
    requires
        is_tool_catalog(a),
        is_tool_catalog(b),
    ensures
        a.len() == b.len(),
        forall|i: int| 0 <= i < a.len() ==> same_descriptor(#[trigger] a[i], b[i]),
{
}

/// Every tool of the catalog has a name, a description and a description of its argument.
pub proof fn lemma_catalog_text_non_empty(r: Seq<ToolDescriptor>)
    requires
        is_tool_catalog(r),
    ensures
        forall|i: int|
            0 <= i < r.len() ==> (#[trigger] r[i]).name@.len() > 0 && r[i].description@.len()
                > 0 && r[i].source_description@.len() > 0,
{
    reveal_strlit("render_plantuml");
    reveal_strlit("render_vega");
    reveal_strlit("Génère des schémas d'architecture, séquences et classes via PlantUML.");
    reveal_strlit("Code PlantUML (ex: @startuml...)");
    reveal_strlit(
        "Generates data charts (bar, line, pie, etc.) using a Vega-Lite JSON specification. IMPORTANT: the provided JSON must be strictly valid. All numeric values must be pre-computed literals (e.g. 10521.96). Arithmetic expressions like '4332.57 + 6189.39' are FORBIDDEN and will cause an error. Aggregate and compute all values BEFORE building the JSON spec.",
    );
    reveal_strlit(
        "A strictly valid Vega-Lite JSON specification. All numeric values must be literals (number type), never expressions. The JSON must be directly parseable as-is.",
    );
}

/// The tools offered to callers.
pub fn get_tools_list() -> (r: Vec<ToolDescriptor>)
    ensures
        is_tool_catalog(r@),
{
    proof {
        reveal_strlit("render_plantuml");
        reveal_strlit("render_vega");
        assert("render_plantuml"@ =~= render_plantuml());
        assert("render_vega"@ =~= render_vega());
        assert(render_vega().len() != render_plantuml().len());
    }
    let plantuml = ToolDescriptor {
        name: String::from_str("render_plantuml"),
        description: String::from_str(PLANTUML_DESCRIPTION),
        backend: Backend::PlantUml,
        source_description: String::from_str(PLANTUML_SOURCE_DESCRIPTION),
    };
    let vega = ToolDescriptor {
        name: String::from_str("render_vega"),
        description: String::from_str(VEGA_DESCRIPTION),
        backend: Backend::VegaLite,
        source_description: String::from_str(VEGA_SOURCE_DESCRIPTION),
    };
    let mut tools: Vec<ToolDescriptor> = Vec::new();
    tools.push(plantuml);
    tools.push(vega);
    tools
}

} // verus!
