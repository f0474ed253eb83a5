//! The roots of the configuration file as named paths: each root either has its own path or
//! uses the default one.

use vstd::prelude::*;

use crate::name_map::NameMap;
use crate::param::OptionalParam;
use crate::path::{join_path, path_join};
use crate::pretty_path::{display_of_real, opt_str_view, PrettyPathView, TildePath};
use crate::project_dirs::ProjectDirs;
use crate::roots::{default_root_dir_name, default_root_name, default_root_name_str, Root, RootView};

verus! {

/// The path setting of a root.
#[derive(Debug)]
pub enum RootConfig {
    /// The root is at the default root path.
    UseDefault,
    /// The root is at the path given.
    Explicit(TildePath),
}

impl View for RootConfig {
    type V = Option<PrettyPathView>;

    open spec fn view(&self) -> Option<PrettyPathView> {
        match self {
            RootConfig::UseDefault => None,
            RootConfig::Explicit(p) => Some(p@),
        }
    }
}

impl Clone for RootConfig {
    fn clone(&self) -> (res: Self)
        ensures
            res@ == self@,
    {
        match self {
            RootConfig::UseDefault => RootConfig::UseDefault,
            RootConfig::Explicit(p) => RootConfig::Explicit(p.clone()),
        }
    }
}

/// Whether `p` is the root parameter for the root `name` with the path setting `setting`: a
/// default value at `default` where the setting says so, else an explicit value at the path it
/// gives.
pub open spec fn root_param_ok(
    p: OptionalParam<Root>,
    name: Seq<char>,
    setting: Option<PrettyPathView>,
    default: PrettyPathView,
) -> bool {
    &&& p.spec_name() == "root"@
    &&& match setting {
        None => p.spec_param_value() is Default && p.spec_param_value().spec_inner()@ == (RootView {
            name,
            path: default,
        }),
        Some(path) => p.spec_param_value() is Explicit && p.spec_param_value().spec_inner()@
            == (RootView { name, path }),
    }
}

impl RootConfig {
    /// The root parameter for the root `name` with this setting (see `root_param_ok`).
    pub fn into_root(self, name: String, default_root_path: &TildePath) -> (res: OptionalParam<Root>)
        ensures
            root_param_ok(res, name@, self@, default_root_path@),
    {
        match self {
            RootConfig::UseDefault => {
                let path = default_root_path.clone();
                OptionalParam::new_default("root", Root::new(name, path.into_pretty_path()))
            },
            RootConfig::Explicit(path) => {
                OptionalParam::new_explicit("root", Root::new(name, path.into_pretty_path()))
            },
        }
    }
}

/// The root entries of the configuration file, by name.
#[derive(Debug)]
pub struct RootMap {
    map: NameMap<RootConfig>,
}

impl View for RootMap {
    type V = Map<Seq<char>, Option<PrettyPathView>>;

    closed spec fn view(&self) -> Map<Seq<char>, Option<PrettyPathView>> {
        self.map.spec_map().map_values(|r: RootConfig| r@)
    }
}

/// The root entries of a list of name/path pairs; a later pair with a name replaces an
/// earlier one, and a pair without a path uses the default path.
pub open spec fn root_entries(pairs: Seq<(String, Option<TildePath>)>) -> Map<Seq<char>, Option<PrettyPathView>>
    decreases pairs.len(),
{
    if pairs.len() == 0 {
        Map::empty()
    } else {
        root_entries(pairs.drop_last()).insert(
            pairs.last().0@,
            match pairs.last().1 {
                Some(p) => Some(p@),
                None => None,
            },
        )
    }
}

/// The setting of the root `name`: the entry's, or the default path where there is none.
pub open spec fn setting_of(m: Map<Seq<char>, Option<PrettyPathView>>, name: Seq<char>) -> Option<PrettyPathView> {
    if m.contains_key(name) {
        m[name]
    } else {
        None
    }
}

/// The default root path: `root` in the data directory, shown with the home directory
/// written `~`.
pub open spec fn default_root_tilde_path(data_local_dir: Seq<char>, home: Option<Seq<char>>) -> PrettyPathView {
    PrettyPathView {
        real_path: join_path(data_local_dir, default_root_dir_name()),
        display_path: display_of_real(join_path(data_local_dir, default_root_dir_name()), home),
    }
}

/// The default root path: `root` in the data directory.
pub fn default_root_path(dirs: &ProjectDirs, home: Option<&str>) -> (res: TildePath)
    requires
        home matches Some(h) ==> h@.len() > 0,
    ensures
        res@ == default_root_tilde_path(dirs@.data_local_dir, opt_str_view(home)),
{
    proof {
        reveal_strlit("root");
    }
    let name = "root";
    assert(name@ == default_root_dir_name());
    TildePath::from_real_path(path_join(dirs.data_local_dir(), name), home)
}

impl RootMap {
    /// The entries of a list of name/path pairs, as the configuration file lists them (see
    /// `root_entries`).
    pub fn from_pairs(pairs: Vec<(String, Option<TildePath>)>) -> (res: Self)
        ensures
            res@ == root_entries(pairs@),
    {
        let ghost all = pairs@;
        let mut map: NameMap<RootConfig> = NameMap::new();
        let mut rest = pairs;
        let ghost mut taken: Seq<(String, Option<TildePath>)> = Seq::empty();
        assert(map.spec_map().map_values(|r: RootConfig| r@) =~= root_entries(taken));
        while rest.len() > 0
            invariant
                all == taken + rest@,
                map.spec_map().map_values(|r: RootConfig| r@) == root_entries(taken),
            decreases rest.len(),
        {
            let ghost before = map.spec_map();
            let ghost old_rest = rest@;
            let (name, path) = rest.remove(0);
            let ghost pair = (name, path);
            proof {
                assert(pair == old_rest[0]);
            }
            let setting = match path {
                Some(p) => RootConfig::Explicit(p),
                None => RootConfig::UseDefault,
            };
            let ghost sv = setting@;
            map.insert(name, setting);
            proof {
                let t2 = taken.push(old_rest[0]);
                assert(t2.drop_last() =~= taken);
                assert(all =~= t2 + rest@);
                assert(map.spec_map().map_values(|r: RootConfig| r@) =~= before.map_values(
                    |r: RootConfig| r@,
                ).insert(pair.0@, sv));
                taken = t2;
            }
        }
        assert(taken =~= all);
        RootMap { map }
    }

    /// The default root: the entry named `default`, or the default path where there is none.
    pub fn default_root(&self, default_root_path: &TildePath) -> (res: OptionalParam<Root>)
        ensures
            root_param_ok(
                res,
                default_root_name(),
                setting_of(self@, default_root_name()),
                default_root_path@,
            ),
    {
        let setting = match self.map.get(default_root_name_str()) {
            Some(r) => r.clone(),
            None => RootConfig::UseDefault,
        };
        setting.into_root(default_root_name_str().to_owned(), default_root_path)
    }

    /// Every root by name: the entries, and the default root where no entry names it.
    pub fn roots(&self, default_root_path: &TildePath) -> (res: NameMap<OptionalParam<Root>>)
        ensures
            res.spec_map().dom() == self@.dom().insert(default_root_name()),
            forall|k: Seq<char>| #[trigger]
                res.spec_map().contains_key(k) ==> root_param_ok(
                    res.spec_map()[k],
                    k,
                    setting_of(self@, k),
                    default_root_path@,
                ),
    {
        let pairs = self.map.pairs();
        let ghost keys = self.map.spec_keys();
        let mut res: NameMap<OptionalParam<Root>> = NameMap::new();
        let mut i: usize = 0;
        assert(res.spec_map().dom() =~= keys.take(0).to_set());
        while i < pairs.len()
            invariant
                keys == self.map.spec_keys(),
                pairs.len() == keys.len(),
                forall|j: int|
                    0 <= j < pairs.len() ==> (#[trigger] pairs[j]).0@ == keys[j]
                        && self.map.spec_map().contains_key(keys[j]) && *pairs[j].1
                        == self.map.spec_map()[keys[j]],
                i <= pairs.len(),
                res.spec_map().dom() == keys.take(i as int).to_set(),
                forall|k: Seq<char>| #[trigger]
                    res.spec_map().contains_key(k) ==> root_param_ok(
                        res.spec_map()[k],
                        k,
                        setting_of(self@, k),
                        default_root_path@,
                    ),
            decreases pairs.len() - i,
        {
            let (name, setting) = pairs[i];
            let ghost before = res.spec_map();
            let param = setting.clone().into_root(name.to_owned(), default_root_path);
            res.insert(name.to_owned(), param);
            proof {
                assert(keys.take(i + 1) =~= keys.take(i as int) + seq![keys[i as int]]);
                Seq::<Seq<char>>::lemma_to_set_insert_commutes(keys.take(i as int), keys[i as int]);
                assert(res.spec_map().dom() =~= keys.take(i + 1).to_set());
                assert(self@.contains_key(keys[i as int]));
                assert(self@[keys[i as int]] == setting@);
            }
            i = i + 1;
        }
        proof {
            assert(keys.take(keys.len() as int) =~= keys);
            assert forall|k: Seq<char>| #[trigger] keys.to_set().contains(k) == self@.contains_key(k) by {
                assert(self.map.spec_map().contains_key(k) <==> keys.contains(k));
            }
        }
        if !res.contains(default_root_name_str()) {
            let param = RootConfig::UseDefault.into_root(
                default_root_name_str().to_owned(),
                default_root_path,
            );
            res.insert(default_root_name_str().to_owned(), param);
        }
        proof {
            assert(res.spec_map().dom() =~= self@.dom().insert(default_root_name()));
        }
        res
    }
}

/// Two parameters that are both the root parameter for the same root, setting and default
/// path have the same name, the same kind, and the same root: so the `default` entry of
/// `RootMap::roots` is `RootMap::default_root`.
pub proof fn lemma_root_param_ok_determines(
    p: OptionalParam<Root>,
    q: OptionalParam<Root>,
    name: Seq<char>,
    setting: Option<PrettyPathView>,
    default: PrettyPathView,
)
    requires
        root_param_ok(p, name, setting, default),
        root_param_ok(q, name, setting, default),
    ensures
        p.spec_name() == q.spec_name(),
        (p.spec_param_value() is Default) == (q.spec_param_value() is Default),
        p.spec_param_value().spec_inner()@ == q.spec_param_value().spec_inner()@,
        p.spec_param_value().spec_inner()@.name == name,
{
}

} // verus!
