//! Corpus-wide laws of the result set: what is guaranteed of the
//! findings for any mix of definition sites and usage occurrences.

use vstd::prelude::*;
use crate::analyzer::FindingView;
use crate::analyzer::finding_for;
use crate::analyzer::findings_of;
use crate::analyzer::is_reported;
use crate::tree::DefSite;

verus! {

/// The findings among `fs` that carry `name`, in order.
pub open spec fn findings_named(fs: Seq<FindingView>, name: Seq<char>) -> Seq<FindingView>
    decreases fs.len(),
{
    if fs.len() == 0 {
        Seq::empty()
    } else {
        (if fs[0].name == name {
            seq![fs[0]]
        } else {
            Seq::empty()
        }) + findings_named(fs.drop_first(), name)
    }
}

/// The definition sites among `defs` that declare `name`, in order.
pub open spec fn sites_named(defs: Seq<DefSite>, name: Seq<char>) -> Seq<DefSite>
    decreases defs.len(),
{
    if defs.len() == 0 {
        Seq::empty()
    } else {
        (if defs[0].name == name {
            seq![defs[0]]
        } else {
            Seq::empty()
        }) + sites_named(defs.drop_first(), name)
    }
}

proof fn lemma_findings_named_cons(f: FindingView, fs: Seq<FindingView>, name: Seq<char>)
    ensures
        findings_named(seq![f] + fs, name) == (if f.name == name {
            seq![f]
        } else {
            Seq::<FindingView>::empty()
        }) + findings_named(fs, name),
{
    let s = seq![f] + fs;
    assert(s[0] == f);
    assert(s.drop_first() =~= fs);
}

/// A name that is referenced anywhere in the corpus is never
/// reported: the findings hold no entry for it, at any site.
pub proof fn lemma_used_name_suppressed(defs: Seq<DefSite>, used: Seq<Seq<char>>, name: Seq<char>)
    requires
        used.contains(name),
    ensures
        findings_named(findings_of(defs, used), name).len() == 0,
    decreases defs.len(),
{
    if defs.len() > 0 {
        lemma_used_name_suppressed(defs.drop_first(), used, name);
        let tail = findings_of(defs.drop_first(), used);
        if is_reported(defs[0], used) {
            lemma_findings_named_cons(finding_for(defs[0]), tail, name);
            assert(defs[0].name != name);
        } else {
            assert(Seq::<FindingView>::empty() + tail =~= tail);
        }
    }
}

/// A name that starts with an underscore is never reported, whether
/// its text is referenced anywhere or not.
pub proof fn lemma_underscore_suppressed(defs: Seq<DefSite>, used: Seq<Seq<char>>, name: Seq<char>)
    requires
        name.len() > 0,
        name[0] == '_',
    ensures
        findings_named(findings_of(defs, used), name).len() == 0,
    decreases defs.len(),
{
    if defs.len() > 0 {
        lemma_underscore_suppressed(defs.drop_first(), used, name);
        let tail = findings_of(defs.drop_first(), used);
        if is_reported(defs[0], used) {
            lemma_findings_named_cons(finding_for(defs[0]), tail, name);
            assert(defs[0].name != name);
        } else {
            assert(Seq::<FindingView>::empty() + tail =~= tail);
        }
    }
}

/// For a name never referenced in the corpus and not starting with an
/// underscore, the findings that carry it are exactly one per
/// recorded definition site of it, in recording order, each with its
/// own site's file and line.
pub proof fn lemma_one_finding_per_site(defs: Seq<DefSite>, used: Seq<Seq<char>>, name: Seq<char>)
    requires
        !used.contains(name),
        name.len() == 0 || name[0] != '_',
    ensures
        findings_named(findings_of(defs, used), name) == sites_named(defs, name).map_values(
            |d: DefSite| finding_for(d),
        ),
        findings_named(findings_of(defs, used), name).len() == sites_named(defs, name).len(),
    decreases defs.len(),
{
    let f = |d: DefSite| finding_for(d);
    if defs.len() == 0 {
        assert(findings_named(findings_of(defs, used), name) =~= sites_named(defs, name)
            .map_values(f));
    } else {
        lemma_one_finding_per_site(defs.drop_first(), used, name);
        let tail = findings_of(defs.drop_first(), used);
        let tail_named = findings_named(tail, name);
        let sites_tail = sites_named(defs.drop_first(), name);
        if is_reported(defs[0], used) {
            lemma_findings_named_cons(finding_for(defs[0]), tail, name);
            if defs[0].name == name {
                assert(seq![finding_for(defs[0])] + tail_named =~= (seq![defs[0]] + sites_tail)
                    .map_values(f));
                assert(seq![defs[0]] + sites_tail =~= sites_named(defs, name));
            } else {
                assert(Seq::<FindingView>::empty() + tail_named =~= tail_named);
                assert(sites_tail =~= sites_named(defs, name));
            }
        } else {
            assert(defs[0].name != name);
            assert(Seq::<FindingView>::empty() + tail =~= tail);
            assert(sites_tail =~= sites_named(defs, name));
        }
        assert(findings_named(findings_of(defs, used), name) =~= sites_named(defs, name)
            .map_values(f));
    }
}

/// A corpus in which nothing was defined yields no findings at all,
/// whatever was referenced.
pub proof fn lemma_empty_corpus(used: Seq<Seq<char>>)
    ensures
        findings_of(Seq::empty(), used) == Seq::<FindingView>::empty(),
{
}

} // verus!
