use vstd::prelude::*;
use crate::text::contains_string;

verus! {

/// One feature module as the module endpoint lists it: its name and the
/// names of the modules it depends on.
pub struct Module {
    pub name: String,
    pub dependencies: Vec<String>,
}

/// The mathematical shape of a [`Module`].
pub struct ModuleView {
    pub name: Seq<char>,
    pub dependencies: Seq<Seq<char>>,
}

impl View for Module {
    type V = ModuleView;

    open spec fn view(&self) -> ModuleView {
        ModuleView { name: self.name@, dependencies: self.dependencies.deep_view() }
    }
}

impl DeepView for Module {
    type V = ModuleView;

    open spec fn deep_view(&self) -> ModuleView {
        self.view()
    }
}

/// The names of the listed modules, in order.
pub open spec fn spec_module_names(ms: Seq<ModuleView>) -> Seq<Seq<char>> {
    ms.map_values(|m: ModuleView| m.name)
}

/// Every one of `names` occurs in `within`.
pub open spec fn spec_all_in(names: Seq<Seq<char>>, within: Seq<Seq<char>>) -> bool {
    forall|i: int| 0 <= i < names.len() ==> within.contains(names[i])
}

/// None of `names` occurs in `within`.
pub open spec fn spec_none_in(names: Seq<Seq<char>>, within: Seq<Seq<char>>) -> bool {
    forall|i: int| 0 <= i < names.len() ==> !within.contains(names[i])
}

/// The names of the listed modules, exactly [`spec_module_names`].
pub fn module_names(ms: &Vec<Module>) -> (r: Vec<String>)
    ensures
        r.deep_view() == spec_module_names(ms.deep_view()),
{
    let mut v: Vec<String> = Vec::new();
    proof {
        assert(v.deep_view() =~= spec_module_names(ms.deep_view().take(0)));
    }
    let mut i: usize = 0;
    while i < ms.len()
        invariant
            0 <= i <= ms@.len(),
            ms.deep_view().len() == ms@.len(),
            v.deep_view() == spec_module_names(ms.deep_view().take(i as int)),
        decreases ms@.len() - i,
    {
        v.push(ms[i].name.clone());
        proof {
            let dv = ms.deep_view();
            assert(dv.take(i as int + 1) =~= dv.take(i as int).push(dv[i as int]));
            assert(spec_module_names(dv.take(i as int + 1)) =~= spec_module_names(
                dv.take(i as int),
            ).push(dv[i as int].name));
        }
        i += 1;
    }
    proof {
        assert(ms.deep_view().take(ms@.len() as int) =~= ms.deep_view());
    }
    v
}

/// Why a requested module selection is refused.
#[derive(Debug)]
pub enum ModuleSelectionError {
    /// The carried name names no module at all.
    Nonexistent(String),
    /// The carried module is not installed, so there is nothing to remove.
    NotInstalled(String),
    /// The first carried module would remain installed but depends on the
    /// second, which was selected for removal.
    DependedOn(String, String),
    /// The carried module is already installed.
    AlreadyInstalled(String),
}

/// An installed module that would remain after the removal depends on a
/// module selected for removal.
pub open spec fn spec_removal_breaks_dependency(
    installed: Seq<ModuleView>,
    mods: Seq<Seq<char>>,
) -> bool {
    exists|i: int, j: int|
        0 <= i < installed.len() && 0 <= j < installed[i].dependencies.len() && !mods.contains(
            installed[i].name,
        ) && mods.contains(#[trigger] installed[i].dependencies[j])
}

/// A removal selection is valid when every requested name is a module,
/// every requested module is installed, and no module that would remain
/// depends on one selected for removal.
pub open spec fn spec_removal_valid(
    all: Seq<Seq<char>>,
    installed: Seq<ModuleView>,
    mods: Seq<Seq<char>>,
) -> bool {
    &&& spec_all_in(mods, all)
    &&& spec_all_in(mods, spec_module_names(installed))
    &&& !spec_removal_breaks_dependency(installed, mods)
}

/// Check a removal selection: `all` is every module's name, `installed`
/// what the database has, `mods` the names requested for removal. The
/// checks run in that order: unknown names first, then not-installed ones,
/// then broken dependencies.
pub fn validate_removal(
    all: &Vec<String>,
    installed: &Vec<Module>,
    mods: &Vec<String>,
) -> (r: Result<(), ModuleSelectionError>)
    ensures
        r is Ok <==> spec_removal_valid(all.deep_view(), installed.deep_view(), mods.deep_view()),
        (r matches Err(e) && e is Nonexistent) <==> !spec_all_in(
            mods.deep_view(),
            all.deep_view(),
        ),
        (r matches Err(e) && e is NotInstalled) <==> (spec_all_in(mods.deep_view(), all.deep_view())
            && !spec_all_in(mods.deep_view(), spec_module_names(installed.deep_view()))),
        (r matches Err(e) && e is DependedOn) <==> (spec_all_in(mods.deep_view(), all.deep_view())
            && spec_all_in(mods.deep_view(), spec_module_names(installed.deep_view()))
            && spec_removal_breaks_dependency(installed.deep_view(), mods.deep_view())),
        r matches Err(e) ==> match e {
            ModuleSelectionError::Nonexistent(m) => mods.deep_view().contains(m@)
                && !all.deep_view().contains(m@),
            ModuleSelectionError::NotInstalled(m) => mods.deep_view().contains(m@)
                && !spec_module_names(installed.deep_view()).contains(m@),
            ModuleSelectionError::DependedOn(d, dep) => exists|i: int, j: int|
                0 <= i < installed.deep_view().len() && 0 <= j < installed.deep_view()[i].dependencies.len()
                    && installed.deep_view()[i].name == d@ && #[trigger] installed.deep_view()[i].dependencies[j]
                    == dep@ && !mods.deep_view().contains(d@) && mods.deep_view().contains(dep@),
            ModuleSelectionError::AlreadyInstalled(_) => false,
        },
{
    let ghost all_v = all.deep_view();
    let ghost installed_v = installed.deep_view();
    let ghost mods_v = mods.deep_view();

    let mut i: usize = 0;
    while i < mods.len()
        invariant
            0 <= i <= mods@.len(),
            all_v == all.deep_view(),
            mods_v == mods.deep_view(),
            mods_v.len() == mods@.len(),
            forall|j: int| 0 <= j < i ==> all_v.contains(mods_v[j]),
        decreases mods@.len() - i,
    {
        if !contains_string(all, mods[i].as_str()) {
            proof {
                assert(mods_v[i as int] == mods@[i as int]@);
            }
            return Err(ModuleSelectionError::Nonexistent(mods[i].clone()));
        }
        i += 1;
    }
    assert(spec_all_in(mods_v, all_v));

    let installed_names = module_names(installed);
    let mut i: usize = 0;
    while i < mods.len()
        invariant
            0 <= i <= mods@.len(),
            installed_v == installed.deep_view(),
            mods_v == mods.deep_view(),
            mods_v.len() == mods@.len(),
            installed_names.deep_view() == spec_module_names(installed_v),
            spec_all_in(mods_v, all.deep_view()),
            all_v == all.deep_view(),
            forall|j: int| 0 <= j < i ==> spec_module_names(installed_v).contains(mods_v[j]),
        decreases mods@.len() - i,
    {
        if !contains_string(&installed_names, mods[i].as_str()) {
            proof {
                assert(mods_v[i as int] == mods@[i as int]@);
            }
            return Err(ModuleSelectionError::NotInstalled(mods[i].clone()));
        }
        i += 1;
    }
    assert(spec_all_in(mods_v, spec_module_names(installed_v)));

    let mut i: usize = 0;
    while i < installed.len()
        invariant
            0 <= i <= installed@.len(),
            all_v == all.deep_view(),
            installed_v == installed.deep_view(),
            mods_v == mods.deep_view(),
            installed_v.len() == installed@.len(),
            spec_all_in(mods_v, all_v),
            spec_all_in(mods_v, spec_module_names(installed_v)),
            forall|i2: int, j2: int|
                0 <= i2 < i && 0 <= j2 < installed_v[i2].dependencies.len() ==> !(!mods_v.contains(
                    installed_v[i2].name,
                ) && mods_v.contains(#[trigger] installed_v[i2].dependencies[j2])),
        decreases installed@.len() - i,
    {
        if !contains_string(mods, installed[i].name.as_str()) {
            let deps = &installed[i].dependencies;
            let mut j: usize = 0;
            while j < deps.len()
                invariant
                    0 <= i < installed@.len(),
                    0 <= j <= deps@.len(),
                    all_v == all.deep_view(),
                    installed_v == installed.deep_view(),
                    mods_v == mods.deep_view(),
                    installed_v.len() == installed@.len(),
                    deps.deep_view() == installed_v[i as int].dependencies,
                    deps.deep_view().len() == deps@.len(),
                    !mods_v.contains(installed_v[i as int].name),
                    spec_all_in(mods_v, all_v),
                    spec_all_in(mods_v, spec_module_names(installed_v)),
                    forall|j2: int| 0 <= j2 < j ==> !mods_v.contains(
                        #[trigger] installed_v[i as int].dependencies[j2],
                    ),
                decreases deps@.len() - j,
            {
                if contains_string(mods, deps[j].as_str()) {
                    proof {
                        assert(installed_v[i as int].dependencies[j as int] == deps@[j as int]@);
                        assert(spec_removal_breaks_dependency(installed_v, mods_v));
                    }
                    return Err(
                        ModuleSelectionError::DependedOn(installed[i].name.clone(), deps[j].clone()),
                    );
                }
                j += 1;
            }
        }
        i += 1;
    }
    Ok(())
}

/// Whether a dependency has to be added to an installation: it is neither
/// installed already nor itself selected.
pub open spec fn spec_dep_needed(
    d: Seq<char>,
    installed: Seq<Seq<char>>,
    mods: Seq<Seq<char>>,
) -> bool {
    !installed.contains(d) && !mods.contains(d)
}

/// The dependencies one module adds to an installation: each of its
/// dependencies that is needed, in order — and nothing when the module was
/// not selected.
pub open spec fn spec_needed_deps(
    deps: Seq<Seq<char>>,
    installed: Seq<Seq<char>>,
    mods: Seq<Seq<char>>,
) -> Seq<Seq<char>>
    decreases deps.len(),
{
    if deps.len() == 0 {
        Seq::empty()
    } else {
        spec_needed_deps(deps.drop_last(), installed, mods) + if spec_dep_needed(
            deps.last(),
            installed,
            mods,
        ) {
            seq![deps.last()]
        } else {
            Seq::empty()
        }
    }
}

/// One module's contribution of dependencies to an installation.
pub open spec fn spec_module_contribution(
    m: ModuleView,
    installed: Seq<Seq<char>>,
    mods: Seq<Seq<char>>,
) -> Seq<Seq<char>> {
    if mods.contains(m.name) {
        spec_needed_deps(m.dependencies, installed, mods)
    } else {
        Seq::empty()
    }
}

/// The dependencies an installation of `mods` pulls in besides the
/// selection itself: module by module over the full listing, in order.
pub open spec fn spec_missing_deps(
    all: Seq<ModuleView>,
    installed: Seq<Seq<char>>,
    mods: Seq<Seq<char>>,
) -> Seq<Seq<char>>
    decreases all.len(),
{
    if all.len() == 0 {
        Seq::empty()
    } else {
        spec_missing_deps(all.drop_last(), installed, mods) + spec_module_contribution(
            all.last(),
            installed,
            mods,
        )
    }
}

/// Check an installation selection and complete it with the dependencies
/// it needs: `all_infos` is the full module listing, `installed` the names
/// installed in the database, `mods` the names requested. On success the
/// first list is the selection followed by the added dependencies, the
/// second the added dependencies alone.
pub fn expand_install(
    all_infos: &Vec<Module>,
    installed: &Vec<String>,
    mods: &Vec<String>,
) -> (r: Result<(Vec<String>, Vec<String>), ModuleSelectionError>)
    ensures
        r is Ok <==> (spec_all_in(mods.deep_view(), spec_module_names(all_infos.deep_view()))
            && spec_none_in(mods.deep_view(), installed.deep_view())),
        r matches Ok(p) ==> (p.0.deep_view() == mods.deep_view() + spec_missing_deps(
            all_infos.deep_view(),
            installed.deep_view(),
            mods.deep_view(),
        ) && p.1.deep_view() == spec_missing_deps(
            all_infos.deep_view(),
            installed.deep_view(),
            mods.deep_view(),
        )),
        (r matches Err(e) && e is Nonexistent) <==> !spec_all_in(
            mods.deep_view(),
            spec_module_names(all_infos.deep_view()),
        ),
        (r matches Err(e) && e is AlreadyInstalled) <==> (spec_all_in(
            mods.deep_view(),
            spec_module_names(all_infos.deep_view()),
        ) && !spec_none_in(mods.deep_view(), installed.deep_view())),
        r matches Err(e) ==> match e {
            ModuleSelectionError::Nonexistent(m) => mods.deep_view().contains(m@)
                && !spec_module_names(all_infos.deep_view()).contains(m@),
            ModuleSelectionError::AlreadyInstalled(m) => mods.deep_view().contains(m@)
                && installed.deep_view().contains(m@),
            _ => false,
        },
{
    let ghost all_v = all_infos.deep_view();
    let ghost installed_v = installed.deep_view();
    let ghost mods_v = mods.deep_view();

    let all_names = module_names(all_infos);
    let mut i: usize = 0;
    while i < mods.len()
        invariant
            0 <= i <= mods@.len(),
            all_v == all_infos.deep_view(),
            mods_v == mods.deep_view(),
            mods_v.len() == mods@.len(),
            all_names.deep_view() == spec_module_names(all_v),
            forall|j: int| 0 <= j < i ==> spec_module_names(all_v).contains(mods_v[j]),
        decreases mods@.len() - i,
    {
        if !contains_string(&all_names, mods[i].as_str()) {
            proof {
                assert(mods_v[i as int] == mods@[i as int]@);
            }
            return Err(ModuleSelectionError::Nonexistent(mods[i].clone()));
        }
        i += 1;
    }
    assert(spec_all_in(mods_v, spec_module_names(all_v)));

    let mut i: usize = 0;
    while i < mods.len()
        invariant
            0 <= i <= mods@.len(),
            all_v == all_infos.deep_view(),
            installed_v == installed.deep_view(),
            mods_v == mods.deep_view(),
            mods_v.len() == mods@.len(),
            spec_all_in(mods_v, spec_module_names(all_v)),
            forall|j: int| 0 <= j < i ==> !installed_v.contains(mods_v[j]),
        decreases mods@.len() - i,
    {
        if contains_string(installed, mods[i].as_str()) {
            proof {
                assert(mods_v[i as int] == mods@[i as int]@);
            }
            return Err(ModuleSelectionError::AlreadyInstalled(mods[i].clone()));
        }
        i += 1;
    }
    assert(spec_none_in(mods_v, installed_v));

    let mut deps: Vec<String> = Vec::new();
    proof {
        assert(all_v.take(0) =~= Seq::<ModuleView>::empty());
        assert(deps.deep_view() =~= spec_missing_deps(all_v.take(0), installed_v, mods_v));
    }
    let mut i: usize = 0;
    while i < all_infos.len()
        invariant
            0 <= i <= all_infos@.len(),
            all_v == all_infos.deep_view(),
            installed_v == installed.deep_view(),
            mods_v == mods.deep_view(),
            all_v.len() == all_infos@.len(),
            spec_all_in(mods_v, spec_module_names(all_v)),
            spec_none_in(mods_v, installed_v),
            deps.deep_view() == spec_missing_deps(all_v.take(i as int), installed_v, mods_v),
        decreases all_infos@.len() - i,
    {
        let ghost taken = all_v.take(i as int);
        if contains_string(mods, all_infos[i].name.as_str()) {
            let dvec = &all_infos[i].dependencies;
            proof {
                assert(dvec.deep_view().take(0) =~= Seq::<Seq<char>>::empty());
            }
            let mut j: usize = 0;
            while j < dvec.len()
                invariant
                    0 <= i < all_infos@.len(),
                    0 <= j <= dvec@.len(),
                    all_v == all_infos.deep_view(),
                    installed_v == installed.deep_view(),
                    mods_v == mods.deep_view(),
                    all_v.len() == all_infos@.len(),
                    taken == all_v.take(i as int),
                    dvec.deep_view() == all_v[i as int].dependencies,
                    dvec.deep_view().len() == dvec@.len(),
                    deps.deep_view() == spec_missing_deps(taken, installed_v, mods_v)
                        + spec_needed_deps(
                        dvec.deep_view().take(j as int),
                        installed_v,
                        mods_v,
                    ),
                decreases dvec@.len() - j,
            {
                proof {
                    let dd = dvec.deep_view();
                    assert(dd.take(j as int + 1).drop_last() =~= dd.take(j as int));
                    assert(dd.take(j as int + 1).last() == dd[j as int]);
                }
                let in_installed = contains_string(installed, dvec[j].as_str());
                let in_mods = contains_string(mods, dvec[j].as_str());
                if !in_installed && !in_mods {
                    deps.push(dvec[j].clone());
                    proof {
                        let dd = dvec.deep_view();
                        let a = spec_missing_deps(taken, installed_v, mods_v);
                        let b = spec_needed_deps(dd.take(j as int), installed_v, mods_v);
                        assert(spec_needed_deps(dd.take(j as int + 1), installed_v, mods_v) =~= b
                            .push(dd[j as int]));
                        assert((a + b).push(dd[j as int]) =~= a + b.push(dd[j as int]));
                        assert(deps.deep_view() =~= a + spec_needed_deps(
                            dd.take(j as int + 1),
                            installed_v,
                            mods_v,
                        ));
                    }
                } else {
                    proof {
                        let dd = dvec.deep_view();
                        assert(spec_needed_deps(dd.take(j as int + 1), installed_v, mods_v)
                            =~= spec_needed_deps(dd.take(j as int), installed_v, mods_v));
                    }
                }
                j += 1;
            }
            proof {
                let dd = dvec.deep_view();
                assert(dd.take(dvec@.len() as int) =~= dd);
                assert(all_v.take(i as int + 1).drop_last() =~= taken);
                assert(all_v.take(i as int + 1).last() == all_v[i as int]);
                assert(spec_module_contribution(all_v[i as int], installed_v, mods_v)
                    == spec_needed_deps(dd, installed_v, mods_v));
            }
        } else {
            proof {
                assert(all_v.take(i as int + 1).drop_last() =~= taken);
                assert(all_v.take(i as int + 1).last() == all_v[i as int]);
                assert(deps.deep_view() + Seq::<Seq<char>>::empty() =~= deps.deep_view());
            }
        }
        i += 1;
    }
    proof {
        assert(all_v.take(all_infos@.len() as int) =~= all_v);
    }

    let mut full: Vec<String> = Vec::new();
    proof {
        assert(mods_v.take(0) =~= Seq::<Seq<char>>::empty());
        assert(full.deep_view() =~= mods_v.take(0));
    }
    let mut i: usize = 0;
    while i < mods.len()
        invariant
            0 <= i <= mods@.len(),
            mods_v == mods.deep_view(),
            mods_v.len() == mods@.len(),
            full.deep_view() == mods_v.take(i as int),
        decreases mods@.len() - i,
    {
        full.push(mods[i].clone());
        proof {
            assert(mods_v.take(i as int + 1) =~= mods_v.take(i as int).push(
                mods_v[i as int],
            ));
        }
        i += 1;
    }
    proof {
        assert(mods_v.take(mods@.len() as int) =~= mods_v);
    }
    let ghost missing = spec_missing_deps(all_v, installed_v, mods_v);
    let mut i: usize = 0;
    while i < deps.len()
        invariant
            0 <= i <= deps@.len(),
            mods_v == mods.deep_view(),
            deps.deep_view() == missing,
            deps.deep_view().len() == deps@.len(),
            full.deep_view() == mods_v + missing.take(i as int),
        decreases deps@.len() - i,
    {
        full.push(deps[i].clone());
        proof {
            assert(missing.take(i as int + 1) =~= missing.take(i as int).push(missing[i as int]));
            assert(mods_v + missing.take(i as int + 1) =~= (mods_v + missing.take(
                i as int,
            )).push(missing[i as int]));
        }
        i += 1;
    }
    proof {
        assert(missing.take(deps@.len() as int) =~= missing);
    }
    Ok((full, deps))
}

/// Whether one of the indices is `target`.
fn contains_index(idxs: &Vec<usize>, target: usize) -> (r: bool)
    ensures
        r == idxs@.contains(target),
{
    let mut i: usize = 0;
    while i < idxs.len()
        invariant
            0 <= i <= idxs@.len(),
            forall|j: int| 0 <= j < i ==> idxs@[j] != target,
        decreases idxs@.len() - i,
    {
        if idxs[i] == target {
            return true;
        }
        i += 1;
    }
    false
}

/// The items whose positions were selected, in their original order.
pub open spec fn spec_selected(items: Seq<Seq<char>>, idxs: Seq<usize>) -> Seq<Seq<char>>
    decreases items.len(),
{
    if items.len() == 0 {
        Seq::empty()
    } else {
        spec_selected(items.drop_last(), idxs) + if idxs.contains((items.len() - 1) as usize) {
            seq![items.last()]
        } else {
            Seq::empty()
        }
    }
}

/// Keep the items at the selected positions, exactly as [`spec_selected`]
/// says.
pub fn select_by_indices(items: &Vec<String>, idxs: &Vec<usize>) -> (r: Vec<String>)
    ensures
        r.deep_view() == spec_selected(items.deep_view(), idxs@),
{
    let ghost whole = items.deep_view();
    let mut out: Vec<String> = Vec::new();
    proof {
        assert(whole.take(0) =~= Seq::<Seq<char>>::empty());
        assert(out.deep_view() =~= spec_selected(whole.take(0), idxs@));
    }
    let mut i: usize = 0;
    while i < items.len()
        invariant
            0 <= i <= items@.len(),
            whole == items.deep_view(),
            whole.len() == items@.len(),
            out.deep_view() == spec_selected(whole.take(i as int), idxs@),
        decreases items@.len() - i,
    {
        proof {
            assert(whole.take(i as int + 1).drop_last() =~= whole.take(i as int));
            assert(whole.take(i as int + 1).last() == whole[i as int]);
            assert(whole.take(i as int + 1).len() == i + 1);
        }
        if contains_index(idxs, i) {
            out.push(items[i].clone());
            proof {
                assert(out.deep_view() =~= spec_selected(whole.take(i as int), idxs@).push(
                    whole[i as int],
                ));
            }
        } else {
            proof {
                assert(out.deep_view() + Seq::<Seq<char>>::empty() =~= out.deep_view());
            }
        }
        i += 1;
    }
    proof {
        assert(whole.take(items@.len() as int) =~= whole);
    }
    out
}

/// The items not named by `excluded`, in their original order.
pub open spec fn spec_not_in(items: Seq<Seq<char>>, excluded: Seq<Seq<char>>) -> Seq<Seq<char>>
    decreases items.len(),
{
    if items.len() == 0 {
        Seq::empty()
    } else {
        spec_not_in(items.drop_last(), excluded) + if !excluded.contains(items.last()) {
            seq![items.last()]
        } else {
            Seq::empty()
        }
    }
}

/// Keep the items that `excluded` does not name, exactly as
/// [`spec_not_in`] says.
pub fn names_not_in(items: &Vec<String>, excluded: &Vec<String>) -> (r: Vec<String>)
    ensures
        r.deep_view() == spec_not_in(items.deep_view(), excluded.deep_view()),
{
    let ghost whole = items.deep_view();
    let mut out: Vec<String> = Vec::new();
    proof {
        assert(whole.take(0) =~= Seq::<Seq<char>>::empty());
        assert(out.deep_view() =~= spec_not_in(whole.take(0), excluded.deep_view()));
    }
    let mut i: usize = 0;
    while i < items.len()
        invariant
            0 <= i <= items@.len(),
            whole == items.deep_view(),
            whole.len() == items@.len(),
            out.deep_view() == spec_not_in(whole.take(i as int), excluded.deep_view()),
        decreases items@.len() - i,
    {
        proof {
            assert(whole.take(i as int + 1).drop_last() =~= whole.take(i as int));
            assert(whole.take(i as int + 1).last() == whole[i as int]);
        }
        if !contains_string(excluded, items[i].as_str()) {
            out.push(items[i].clone());
            proof {
                assert(out.deep_view() =~= spec_not_in(whole.take(i as int), excluded.deep_view())
                    .push(whole[i as int]));
            }
        } else {
            proof {
                assert(out.deep_view() + Seq::<Seq<char>>::empty() =~= out.deep_view());
            }
        }
        i += 1;
    }
    proof {
        assert(whole.take(items@.len() as int) =~= whole);
    }
    out
}

} // verus!
