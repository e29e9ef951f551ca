//! A mathematical model of the filesystem effect of a step plan.
//!
//! The model covers exactly the writes the plan itself performs: directory
//! creation that tolerates an existing directory, and file creation that
//! never overwrites an existing file.  What the external tools write, and
//! the parent aggregator update (which depends on the working directory's
//! contents), are outside the model; those steps leave the modelled state
//! unchanged.

use vstd::prelude::*;
use crate::plan::StepView;
use crate::plan::plan_spec;
use crate::plan::bloc_dir_of;
use crate::plan::widgets_dir_of;
use crate::plan::widgets_file_of;
use crate::plan::page_path_of;
use crate::plan::module_path_of;
use crate::plan::export_path_of;
use crate::text::page_content_of;
use crate::text::module_content_of;
use crate::text::export_content_of;
use crate::text::widgets_content;

verus! {

/// One filesystem entry: a directory, or a file with its content.
#[verifier::ext_equal]
pub ghost enum Entry {
    Dir,
    File(Seq<char>),
}

/// Whether a step itself creates a path in the filesystem.
pub open spec fn writes_path(s: StepView) -> bool {
    match s {
        StepView::MakeDir { .. } => true,
        StepView::WriteFileIfAbsent { .. } => true,
        _ => false,
    }
}

/// The path a creating step targets (meaningful only when the step
/// creates one).
pub open spec fn target_of(s: StepView) -> Seq<char> {
    match s {
        StepView::MakeDir { path } => path,
        StepView::WriteFileIfAbsent { path, .. } => path,
        _ => Seq::empty(),
    }
}

/// The filesystem after one step: a directory or file is created only if
/// its path is absent; an existing entry is never replaced, and the tool
/// and parent-update steps change nothing in the modelled state.
pub open spec fn apply_step(fs: Map<Seq<char>, Entry>, s: StepView) -> Map<Seq<char>, Entry> {
    match s {
        StepView::MakeDir { path } => if fs.contains_key(path) {
            fs
        } else {
            fs.insert(path, Entry::Dir)
        },
        StepView::WriteFileIfAbsent { path, content } => if fs.contains_key(path) {
            fs
        } else {
            fs.insert(path, Entry::File(content))
        },
        StepView::RunMason { .. } => fs,
        StepView::UpdateParentExports { .. } => fs,
        StepView::RunBuildRunner { .. } => fs,
    }
}

/// The filesystem after a whole plan, step by step in order.
pub open spec fn apply_plan(fs: Map<Seq<char>, Entry>, steps: Seq<StepView>) -> Map<
    Seq<char>,
    Entry,
>
    decreases steps.len(),
{
    if steps.len() == 0 {
        fs
    } else {
        apply_plan(apply_step(fs, steps[0]), steps.skip(1))
    }
}

proof fn lemma_step_preserves(fs: Map<Seq<char>, Entry>, s: StepView, p: Seq<char>)
    requires
        fs.contains_key(p),
    ensures
        apply_step(fs, s).contains_key(p),
        apply_step(fs, s)[p] == fs[p],
{
}

/// No step of any plan ever removes or overwrites an existing entry:
/// whatever was on disk before the plan ran, with whatever content, is
/// still there unchanged afterwards.  In particular a template file the
/// user has edited is never clobbered by a re-run.
pub proof fn lemma_plan_preserves_entries(
    fs: Map<Seq<char>, Entry>,
    steps: Seq<StepView>,
    p: Seq<char>,
)
    requires
        fs.contains_key(p),
    ensures
        apply_plan(fs, steps).contains_key(p),
        apply_plan(fs, steps)[p] == fs[p],
    decreases steps.len(),
{
    if steps.len() > 0 {
        lemma_step_preserves(fs, steps[0], p);
        lemma_plan_preserves_entries(apply_step(fs, steps[0]), steps.skip(1), p);
    }
}

proof fn lemma_plan_targets(fs: Map<Seq<char>, Entry>, steps: Seq<StepView>, i: int)
    requires
        0 <= i < steps.len(),
        writes_path(steps[i]),
    ensures
        apply_plan(fs, steps).contains_key(target_of(steps[i])),
    decreases steps.len(),
{
    if i == 0 {
        let fs1 = apply_step(fs, steps[0]);
        assert(fs1.contains_key(target_of(steps[0])));
        lemma_plan_preserves_entries(fs1, steps.skip(1), target_of(steps[0]));
    } else {
        lemma_plan_targets(apply_step(fs, steps[0]), steps.skip(1), i - 1);
        assert(steps.skip(1)[i - 1] == steps[i]);
    }
}

proof fn lemma_step_noop(fs: Map<Seq<char>, Entry>, s: StepView)
    requires
        writes_path(s) ==> fs.contains_key(target_of(s)),
    ensures
        apply_step(fs, s) == fs,
{
}

proof fn lemma_plan_noop(fs: Map<Seq<char>, Entry>, steps: Seq<StepView>)
    requires
        forall|i: int|
            0 <= i < steps.len() && writes_path(steps[i]) ==> fs.contains_key(
                target_of(steps[i]),
            ),
    ensures
        apply_plan(fs, steps) == fs,
    decreases steps.len(),
{
    if steps.len() > 0 {
        assert(writes_path(steps[0]) ==> fs.contains_key(target_of(steps[0])));
        lemma_step_noop(fs, steps[0]);
        assert(forall|i: int|
            0 <= i < steps.skip(1).len() && writes_path(steps.skip(1)[i]) ==> fs.contains_key(
                target_of(#[trigger] steps.skip(1)[i]),
            )) by {
            assert(forall|i: int|
                0 <= i < steps.skip(1).len() ==> #[trigger] steps.skip(1)[i] == steps[i + 1]);
        }
        lemma_plan_noop(fs, steps.skip(1));
    }
}

proof fn lemma_plan_unfold(fs: Map<Seq<char>, Entry>, steps: Seq<StepView>)
    requires
        steps.len() > 0,
    ensures
        apply_plan(fs, steps) == apply_plan(apply_step(fs, steps[0]), steps.skip(1)),
{
}

/// The five paths a plan can create for a feature name are pairwise
/// distinct, and distinct from the name itself.
pub proof fn lemma_paths_distinct(n: Seq<char>)
    ensures
        n != page_path_of(n),
        n != module_path_of(n),
        n != export_path_of(n),
        n != bloc_dir_of(n),
        n != widgets_dir_of(n),
        page_path_of(n) != module_path_of(n),
        page_path_of(n) != export_path_of(n),
        module_path_of(n) != export_path_of(n),
        bloc_dir_of(n) != page_path_of(n),
        bloc_dir_of(n) != module_path_of(n),
        bloc_dir_of(n) != export_path_of(n),
        bloc_dir_of(n) != widgets_dir_of(n),
        widgets_dir_of(n) != page_path_of(n),
        widgets_dir_of(n) != module_path_of(n),
        widgets_dir_of(n) != export_path_of(n),
{
    reveal_strlit("/bloc");
    reveal_strlit("/widgets");
    reveal_strlit("/");
    reveal_strlit("_page.dart");
    reveal_strlit("_module.dart");
    reveal_strlit(".dart");
    let l = n.len() as int;
    assert(page_path_of(n).len() == 2 * l + 11);
    assert(module_path_of(n).len() == 2 * l + 13);
    assert(export_path_of(n).len() == 2 * l + 6);
    assert(bloc_dir_of(n).len() == l + 5);
    assert(widgets_dir_of(n).len() == l + 8);
    if l == 2 {
        assert(widgets_dir_of(n)[5] == 'd');
        assert(export_path_of(n)[5] == '.');
        assert(widgets_dir_of(n) != export_path_of(n));
    }
}

/// With no flags, running the command on a state that holds none of the
/// involved paths creates exactly the feature directory and its three
/// generated files, with the rendered contents; the bloc and widgets
/// paths are not created.
pub proof fn lemma_modular_no_flags_effect(fs: Map<Seq<char>, Entry>, n: Seq<char>)
    requires
        !fs.contains_key(n),
        !fs.contains_key(page_path_of(n)),
        !fs.contains_key(module_path_of(n)),
        !fs.contains_key(export_path_of(n)),
        !fs.contains_key(bloc_dir_of(n)),
        !fs.contains_key(widgets_dir_of(n)),
    ensures
        apply_plan(fs, plan_spec(n, false, false, false)).dom() =~= fs.dom().insert(n).insert(
            page_path_of(n),
        ).insert(module_path_of(n)).insert(export_path_of(n)),
        apply_plan(fs, plan_spec(n, false, false, false))[n] == Entry::Dir,
        apply_plan(fs, plan_spec(n, false, false, false))[page_path_of(n)] == Entry::File(
            page_content_of(n),
        ),
        apply_plan(fs, plan_spec(n, false, false, false))[module_path_of(n)] == Entry::File(
            module_content_of(n),
        ),
        apply_plan(fs, plan_spec(n, false, false, false))[export_path_of(n)] == Entry::File(
            export_content_of(n),
        ),
        !apply_plan(fs, plan_spec(n, false, false, false)).contains_key(bloc_dir_of(n)),
        !apply_plan(fs, plan_spec(n, false, false, false)).contains_key(widgets_dir_of(n)),
{
    lemma_paths_distinct(n);
    let p1 = page_path_of(n);
    let p2 = module_path_of(n);
    let p3 = export_path_of(n);
    let step_mk = StepView::MakeDir { path: n };
    let step_pg = StepView::WriteFileIfAbsent { path: p1, content: page_content_of(n) };
    let step_md = StepView::WriteFileIfAbsent { path: p2, content: module_content_of(n) };
    let step_ex = StepView::WriteFileIfAbsent { path: p3, content: export_content_of(n) };
    let step_up = StepView::UpdateParentExports { name: n };
    let s = plan_spec(n, false, false, false);
    let t = seq![step_mk, step_pg, step_md, step_ex, step_up];
    assert(s =~= t);
    let fs1 = apply_step(fs, step_mk);
    let fs2 = apply_step(fs1, step_pg);
    let fs3 = apply_step(fs2, step_md);
    let fs4 = apply_step(fs3, step_ex);
    let fs5 = apply_step(fs4, step_up);
    lemma_plan_unfold(fs, t);
    let t1 = t.skip(1);
    assert(t1 =~= seq![step_pg, step_md, step_ex, step_up]);
    lemma_plan_unfold(fs1, t1);
    let t2 = t1.skip(1);
    assert(t2 =~= seq![step_md, step_ex, step_up]);
    lemma_plan_unfold(fs2, t2);
    let t3 = t2.skip(1);
    assert(t3 =~= seq![step_ex, step_up]);
    lemma_plan_unfold(fs3, t3);
    let t4 = t3.skip(1);
    assert(t4 =~= seq![step_up]);
    lemma_plan_unfold(fs4, t4);
    let t5 = t4.skip(1);
    assert(t5 =~= Seq::<StepView>::empty());
    assert(apply_plan(fs5, t5) == fs5);
    assert(apply_plan(fs, s) == fs5);
    assert(fs1 == fs.insert(n, Entry::Dir));
    assert(fs2 == fs1.insert(p1, Entry::File(page_content_of(n))));
    assert(fs3 == fs2.insert(p2, Entry::File(module_content_of(n))));
    assert(fs4 == fs3.insert(p3, Entry::File(export_content_of(n))));
    assert(fs5 == fs4);
}

/// With the bloc and widgets flags set, running the command leaves the
/// feature directory, the bloc directory, the widgets directory and all
/// four generated files present, whatever the starting state was.
pub proof fn lemma_modular_flags_create(fs: Map<Seq<char>, Entry>, n: Seq<char>, run: bool)
    ensures
        apply_plan(fs, plan_spec(n, true, true, run)).contains_key(n),
        apply_plan(fs, plan_spec(n, true, true, run)).contains_key(bloc_dir_of(n)),
        apply_plan(fs, plan_spec(n, true, true, run)).contains_key(widgets_dir_of(n)),
        apply_plan(fs, plan_spec(n, true, true, run)).contains_key(widgets_file_of(n)),
        apply_plan(fs, plan_spec(n, true, true, run)).contains_key(page_path_of(n)),
        apply_plan(fs, plan_spec(n, true, true, run)).contains_key(module_path_of(n)),
        apply_plan(fs, plan_spec(n, true, true, run)).contains_key(export_path_of(n)),
{
    let s = plan_spec(n, true, true, run);
    assert(s[0] == StepView::MakeDir { path: n });
    assert(s[1] == StepView::MakeDir { path: bloc_dir_of(n) });
    assert(s[5] == StepView::MakeDir { path: widgets_dir_of(n) });
    assert(s[6] == (StepView::WriteFileIfAbsent {
        path: widgets_file_of(n),
        content: widgets_content(),
    }));
    assert(s[7] == (StepView::WriteFileIfAbsent {
        path: page_path_of(n),
        content: page_content_of(n),
    }));
    assert(s[8] == (StepView::WriteFileIfAbsent {
        path: module_path_of(n),
        content: module_content_of(n),
    }));
    assert(s[9] == (StepView::WriteFileIfAbsent {
        path: export_path_of(n),
        content: export_content_of(n),
    }));
    lemma_plan_targets(fs, s, 0);
    lemma_plan_targets(fs, s, 1);
    lemma_plan_targets(fs, s, 5);
    lemma_plan_targets(fs, s, 6);
    lemma_plan_targets(fs, s, 7);
    lemma_plan_targets(fs, s, 8);
    lemma_plan_targets(fs, s, 9);
}

/// Running a plan a second time changes nothing: every path the plan
/// creates already exists after the first run, and a step whose target
/// exists leaves the filesystem as it is.
pub proof fn lemma_plan_idempotent(fs: Map<Seq<char>, Entry>, steps: Seq<StepView>)
    ensures
        apply_plan(apply_plan(fs, steps), steps) == apply_plan(fs, steps),
{
    let fs1 = apply_plan(fs, steps);
    assert forall|i: int| 0 <= i < steps.len() && writes_path(steps[i]) implies fs1.contains_key(
        target_of(steps[i]),
    ) by {
        lemma_plan_targets(fs, steps, i);
    }
    lemma_plan_noop(fs1, steps);
}

} // verus!
