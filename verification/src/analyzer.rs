//! The name usage collector: records every definition site and every
//! identifier usage across the scanned corpus, and reports the
//! definition sites whose names are never referenced.

use vstd::prelude::*;
use vstd::string::StrSliceExecFns;
use crate::parse::parse_python;
use crate::parse::py_parse;
use crate::tree::DefSite;
use crate::tree::PyNode;
use crate::tree::defs_of;
use crate::tree::defs_of_seq;
use crate::tree::is_def_node;
use crate::tree::is_name_child;
use crate::tree::is_usage_node;
use crate::tree::name_of;
use crate::tree::own_def;
use crate::tree::rows_in_range;
use crate::tree::uses_of;
use crate::tree::uses_of_seq;

verus! {

/// One reported finding: a definition site whose name is never
/// referenced anywhere in the scanned corpus.
#[derive(Clone, Debug)]
pub struct DeadCodeItem {
    pub file: String,
    pub line: usize,
    pub name: String,
    pub code_type: String,
    pub confidence: u8,
    pub size: usize,
}

/// The spec-level content of a `DeadCodeItem`.
pub struct FindingView {
    pub file: Seq<char>,
    pub line: int,
    pub name: Seq<char>,
    pub code_type: Seq<char>,
    pub confidence: u8,
    pub size: int,
}

impl View for DeadCodeItem {
    type V = FindingView;

    open spec fn view(&self) -> FindingView {
        FindingView {
            file: self.file@,
            line: self.line as int,
            name: self.name@,
            code_type: self.code_type@,
            confidence: self.confidence,
            size: self.size as int,
        }
    }
}

/// One recorded definition site.
#[derive(Clone, Debug)]
pub struct DefinitionRecord {
    pub name: String,
    pub file: String,
    pub line: usize,
}

impl View for DefinitionRecord {
    type V = DefSite;

    open spec fn view(&self) -> DefSite {
        DefSite { name: self.name@, file: self.file@, line: self.line as int }
    }
}

/// Why a scan stops: the driver could not read a file, or the
/// grammar produced no tree at all for one.
#[derive(Clone, Copy, Debug, PartialEq, Eq, Structural)]
pub enum AnalyzeError {
    Io,
    Parse,
}

/// The spec-level content of a `DeadCodeAnalyzer`: the recorded
/// definition sites in order, and every usage occurrence in order.
pub struct AnalyzerView {
    pub min_confidence: u8,
    pub exclude_patterns: Seq<Seq<char>>,
    pub defs: Seq<DefSite>,
    pub used: Seq<Seq<char>>,
}

/// The collector. Configuration is recorded at construction but does
/// not affect the result set: the findings depend on the definition
/// sites and the usage occurrences alone, as `get_results` states.
pub struct DeadCodeAnalyzer {
    min_confidence: u8,
    exclude_patterns: Vec<String>,
    defined: Vec<DefinitionRecord>,
    used: Vec<String>,
}

impl View for DeadCodeAnalyzer {
    type V = AnalyzerView;

    closed spec fn view(&self) -> AnalyzerView {
        AnalyzerView {
            min_confidence: self.min_confidence,
            exclude_patterns: self.exclude_patterns.deep_view(),
            defs: self.defined@.map_values(|r: DefinitionRecord| r@),
            used: self.used.deep_view(),
        }
    }
}

/// Whether a definition site is reported against a corpus-wide usage
/// list: its name never occurs there, and does not start with an
/// underscore (the convention for intentionally unreferenced names).
pub open spec fn is_reported(d: DefSite, used: Seq<Seq<char>>) -> bool {
    !used.contains(d.name) && !(d.name.len() > 0 && d.name[0] == '_')
}

/// The finding emitted for a reported site: the site itself under a
/// fixed confidence of 80, the single kind tag, and a size of 0.
pub open spec fn finding_for(d: DefSite) -> FindingView {
    FindingView {
        file: d.file,
        line: d.line,
        name: d.name,
        code_type: "function/class"@,
        confidence: 80,
        size: 0,
    }
}

/// The findings for a list of definition sites: one per reported
/// site, in the order the sites were recorded.
pub open spec fn findings_of(defs: Seq<DefSite>, used: Seq<Seq<char>>) -> Seq<FindingView>
    decreases defs.len(),
{
    if defs.len() == 0 {
        Seq::empty()
    } else {
        (if is_reported(defs[0], used) {
            seq![finding_for(defs[0])]
        } else {
            Seq::empty()
        }) + findings_of(defs.drop_first(), used)
    }
}

/// The spec-level content of a vector of findings.
pub open spec fn findings_view(v: Seq<DeadCodeItem>) -> Seq<FindingView> {
    v.map_values(|it: DeadCodeItem| it@)
}

fn kind_is(n: &PyNode, k: &str) -> (r: bool)
    ensures
        r == (n.kind@ == k@),
{
    n.kind == k.to_owned()
}

fn exec_is_def_node(n: &PyNode) -> (r: bool)
    ensures
        r == is_def_node(*n),
{
    kind_is(n, "function_definition") || kind_is(n, "class_definition")
}

fn exec_is_usage_node(n: &PyNode) -> (r: bool)
    ensures
        r == is_usage_node(*n),
{
    kind_is(n, "identifier") || kind_is(n, "attribute")
}

fn exec_is_name_child(n: &PyNode) -> (r: bool)
    ensures
        r == is_name_child(*n),
{
    match &n.field {
        None => false,
        Some(f) => *f == "name".to_owned(),
    }
}

fn starts_with_underscore(s: &String) -> (r: bool)
    ensures
        r == (s@.len() > 0 && s@[0] == '_'),
{
    if s.as_str().is_empty() {
        false
    } else {
        s.as_str().get_char(0) == '_'
    }
}

/// The first child under the grammar field "name", as exec code
/// finds it.
fn find_name_child(children: &Vec<PyNode>) -> (r: Option<String>)
    ensures
        r matches Some(s) ==> name_of(children@) == Some(s@),
        r is None ==> name_of(children@) is None,
{
    proof {
        assert(children@.skip(0) =~= children@);
    }
    let mut i: usize = 0;
    while i < children.len()
        invariant
            i <= children.len(),
            name_of(children@) == name_of(children@.skip(i as int)),
        decreases children.len() - i,
    {
        let c = &children[i];
        proof {
            assert(children@.skip(i as int)[0] == children@[i as int]);
        }
        if exec_is_name_child(c) {
            return Some(c.text.clone());
        }
        proof {
            assert(children@.skip(i as int).drop_first() =~= children@.skip(i as int + 1));
        }
        i += 1;
    }
    None
}

impl DeadCodeAnalyzer {
    /// A fresh collector: the configuration is stored, and nothing is
    /// defined or used yet.
    pub fn new(min_confidence: u8, exclude_patterns: Vec<&str>) -> (r: Self)
        ensures
            r@.min_confidence == min_confidence,
            r@.exclude_patterns == exclude_patterns.deep_view(),
            r@.defs == Seq::<DefSite>::empty(),
            r@.used == Seq::<Seq<char>>::empty(),
    {
        let mut pats: Vec<String> = Vec::new();
        let mut i: usize = 0;
        while i < exclude_patterns.len()
            invariant
                i <= exclude_patterns.len(),
                pats@.len() == i as int,
                pats.deep_view() =~= exclude_patterns.deep_view().take(i as int),
            decreases exclude_patterns.len() - i,
        {
            let ghost prev = pats.deep_view();
            pats.push(exclude_patterns[i].to_owned());
            i += 1;
            proof {
                assert forall|j: int| 0 <= j < i implies pats.deep_view()[j]
                    == exclude_patterns.deep_view()[j] by {
                    assert(pats.deep_view()[j] == pats@[j].deep_view());
                    if j < i - 1 {
                        assert(prev[j] == exclude_patterns.deep_view().take(i - 1)[j]);
                    }
                }
                assert(pats.deep_view() =~= exclude_patterns.deep_view().take(i as int));
            }
        }
        let r = DeadCodeAnalyzer {
            min_confidence,
            exclude_patterns: pats,
            defined: Vec::new(),
            used: Vec::new(),
        };
        proof {
            assert(r@.exclude_patterns =~= exclude_patterns.deep_view());
            assert(r@.defs =~= Seq::<DefSite>::empty());
            assert(r@.used =~= Seq::<Seq<char>>::empty());
        }
        r
    }

    /// Record every definition site in the subtree rooted at `n`.
    fn collect_defs(&mut self, n: &PyNode, file: &String)
        requires
            rows_in_range(*n),
        ensures
            final(self)@.defs == old(self)@.defs + defs_of(*n, file@),
            final(self)@.used == old(self)@.used,
            final(self)@.min_confidence == old(self)@.min_confidence,
            final(self)@.exclude_patterns == old(self)@.exclude_patterns,
        decreases *n,
    {
        if exec_is_def_node(n) {
            match find_name_child(&n.children) {
                Some(name) => {
                    let line = n.row + 1;
                    let rec = DefinitionRecord { name, file: file.clone(), line };
                    let ghost site = rec@;
                    self.defined.push(rec);
                    proof {
                        assert(self@.defs =~= old(self)@.defs + own_def(*n, file@));
                    }
                }
                None => {
                    proof {
                        assert(self@.defs =~= old(self)@.defs + own_def(*n, file@));
                    }
                }
            }
        } else {
            proof {
                assert(self@.defs =~= old(self)@.defs + own_def(*n, file@));
            }
        }
        proof {
            assert(n.children@.skip(0) =~= n.children@);
            assert(self@.defs + defs_of_seq(n.children@.skip(0), file@)
                =~= old(self)@.defs + defs_of(*n, file@));
        }
        let mut i: usize = 0;
        while i < n.children.len()
            invariant
                i <= n.children.len(),
                rows_in_range(*n),
                self@.defs + defs_of_seq(n.children@.skip(i as int), file@)
                    =~= old(self)@.defs + defs_of(*n, file@),
                self@.used == old(self)@.used,
                self@.min_confidence == old(self)@.min_confidence,
                self@.exclude_patterns == old(self)@.exclude_patterns,
            decreases n.children.len() - i,
        {
            proof {
                assert(rows_in_range(n.children@[i as int]));
                assert(n.children@.skip(i as int)[0] == n.children@[i as int]);
                assert(n.children@.skip(i as int).drop_first()
                    =~= n.children@.skip(i as int + 1));
            }
            let ghost pre = self@.defs;
            self.collect_defs(&n.children[i], file);
            proof {
                assert(self@.defs + defs_of_seq(n.children@.skip(i as int + 1), file@)
                    =~= pre + defs_of_seq(n.children@.skip(i as int), file@));
            }
            i += 1;
        }
        proof {
            assert(n.children@.skip(n.children@.len() as int).len() == 0);
            assert(self@.defs =~= old(self)@.defs + defs_of(*n, file@));
        }
    }

    /// Record every usage occurrence in the subtree rooted at `n`.
    fn collect_uses(&mut self, n: &PyNode)
        ensures
            final(self)@.used == old(self)@.used + uses_of(*n),
            final(self)@.defs == old(self)@.defs,
            final(self)@.min_confidence == old(self)@.min_confidence,
            final(self)@.exclude_patterns == old(self)@.exclude_patterns,
        decreases *n,
    {
        if exec_is_usage_node(n) {
            self.used.push(n.text.clone());
            proof {
                assert(self@.used =~= old(self)@.used + seq![n.text@]);
            }
        }
        let parent_is_def = exec_is_def_node(n);
        proof {
            assert(n.children@.skip(0) =~= n.children@);
            assert(self@.used + uses_of_seq(n.children@.skip(0), is_def_node(*n))
                =~= old(self)@.used + uses_of(*n));
        }
        let mut i: usize = 0;
        while i < n.children.len()
            invariant
                i <= n.children.len(),
                parent_is_def == is_def_node(*n),
                self@.used + uses_of_seq(n.children@.skip(i as int), is_def_node(*n))
                    =~= old(self)@.used + uses_of(*n),
                self@.defs == old(self)@.defs,
                self@.min_confidence == old(self)@.min_confidence,
                self@.exclude_patterns == old(self)@.exclude_patterns,
            decreases n.children.len() - i,
        {
            proof {
                assert(n.children@.skip(i as int)[0] == n.children@[i as int]);
                assert(n.children@.skip(i as int).drop_first()
                    =~= n.children@.skip(i as int + 1));
            }
            let c = &n.children[i];
            let ghost pre = self@.used;
            if !(parent_is_def && exec_is_name_child(c)) {
                self.collect_uses(c);
            }
            proof {
                assert(self@.used + uses_of_seq(n.children@.skip(i as int + 1), is_def_node(*n))
                    =~= pre + uses_of_seq(n.children@.skip(i as int), is_def_node(*n)));
            }
            i += 1;
        }
        proof {
            assert(n.children@.skip(n.children@.len() as int).len() == 0);
            assert(self@.used =~= old(self)@.used + uses_of(*n));
        }
    }

    /// Analyze the text of one file of the corpus: parse it, then
    /// record its definition sites and its usage occurrences. When
    /// the grammar yields no tree the collector is left unchanged.
    pub fn analyze_source(&mut self, file: &String, content: &String) -> (r: Result<
        (),
        AnalyzeError,
    >)
        ensures
            py_parse(content@) matches Some(t) ==> {
                &&& r is Ok
                &&& final(self)@.defs == old(self)@.defs + defs_of(t, file@)
                &&& final(self)@.used == old(self)@.used + uses_of(t)
            },
            py_parse(content@) is None ==> r == Err::<(), AnalyzeError>(AnalyzeError::Parse)
                && final(self)@ == old(self)@,
            final(self)@.min_confidence == old(self)@.min_confidence,
            final(self)@.exclude_patterns == old(self)@.exclude_patterns,
    {
        match parse_python(content) {
            None => Err(AnalyzeError::Parse),
            Some(root) => {
                self.collect_defs(&root, file);
                self.collect_uses(&root);
                Ok(())
            }
        }
    }

    /// Whether a name occurs in the recorded usage occurrences.
    fn is_used(&self, name: &String) -> (r: bool)
        ensures
            r == self@.used.contains(name@),
    {
        let mut i: usize = 0;
        while i < self.used.len()
            invariant
                i <= self.used.len(),
                forall|j: int| 0 <= j < i ==> self@.used[j] != name@,
            decreases self.used.len() - i,
        {
            proof {
                assert(self@.used[i as int] == self.used@[i as int]@);
            }
            if self.used[i] == *name {
                proof {
                    assert(self@.used.contains(name@));
                }
                return true;
            }
            i += 1;
        }
        proof {
        }
        false
    }

    /// The findings accumulated so far: one per recorded definition
    /// site whose name is never referenced in the corpus and does not
    /// start with an underscore. The stored minimum confidence and
    /// exclude patterns do not enter into this. The result can be
    /// read any number of times and depends on the recorded state
    /// alone.
    pub fn get_results(&self) -> (r: Vec<DeadCodeItem>)
        ensures
            findings_view(r@) == findings_of(self@.defs, self@.used),
    {
        let mut out: Vec<DeadCodeItem> = Vec::new();
        proof {
            assert(self@.defs.skip(0) =~= self@.defs);
            assert(findings_view(out@) + findings_of(self@.defs.skip(0), self@.used)
                =~= findings_of(self@.defs, self@.used));
        }
        let mut i: usize = 0;
        while i < self.defined.len()
            invariant
                i <= self.defined.len(),
                self.defined@.len() == self@.defs.len(),
                findings_view(out@) + findings_of(self@.defs.skip(i as int), self@.used)
                    =~= findings_of(self@.defs, self@.used),
            decreases self.defined.len() - i,
        {
            proof {
                assert(self@.defs.skip(i as int)[0] == self@.defs[i as int]);
                assert(self@.defs.skip(i as int).drop_first() =~= self@.defs.skip(i as int + 1));
                assert(self@.defs[i as int] == self.defined@[i as int]@);
            }
            let rec = &self.defined[i];
            let ghost pre = findings_view(out@);
            if !self.is_used(&rec.name) && !starts_with_underscore(&rec.name) {
                let item = DeadCodeItem {
                    file: rec.file.clone(),
                    line: rec.line,
                    name: rec.name.clone(),
                    code_type: "function/class".to_owned(),
                    confidence: 80,
                    size: 0,
                };
                proof {
                    assert(item@ == finding_for(self@.defs[i as int]));
                }
                out.push(item);
                proof {
                    assert(findings_view(out@) =~= pre + seq![finding_for(self@.defs[i as int])]);
                }
            }
            proof {
                assert(findings_view(out@) + findings_of(self@.defs.skip(i as int + 1), self@.used)
                    =~= findings_of(self@.defs, self@.used));
            }
            i += 1;
        }
        proof {
            assert(self@.defs.skip(self@.defs.len() as int).len() == 0);
            assert(findings_view(out@) =~= findings_of(self@.defs, self@.used));
        }
        out
    }
}

} // verus!
