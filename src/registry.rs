//! The fixed catalog of known package managers.
use vstd::prelude::*;
use crate::platform::Platform;

verus! {

/// One known package manager. Each command template is a program name
/// followed by fixed flags; the package or query is appended at call time.
/// `probe` names the executable whose presence on the search path tells
/// whether the manager is installed.
#[derive(Clone, Copy, Debug)]
pub struct PackageManager {
    pub name: &'static str,
    pub install_cmd: &'static str,
    pub search_cmd: &'static str,
    pub update_cmd: &'static str,
    pub probe: &'static str,
    pub platform: Platform,
}

/// The texts of a descriptor.
pub struct ManagerView {
    pub name: Seq<char>,
    pub install_cmd: Seq<char>,
    pub search_cmd: Seq<char>,
    pub update_cmd: Seq<char>,
    pub probe: Seq<char>,
    pub platform: Platform,
}

impl View for PackageManager {
    type V = ManagerView;

    open spec fn view(&self) -> ManagerView {
        ManagerView {
            name: self.name@,
            install_cmd: self.install_cmd@,
            search_cmd: self.search_cmd@,
            update_cmd: self.update_cmd@,
            probe: self.probe@,
            platform: self.platform,
        }
    }
}

pub open spec fn views(v: Seq<PackageManager>) -> Seq<ManagerView> {
    v.map_values(|m: PackageManager| m@)
}

pub open spec fn entry(
    name: &str,
    install_cmd: &str,
    search_cmd: &str,
    update_cmd: &str,
    probe: &str,
    platform: Platform,
) -> ManagerView {
    ManagerView {
        name: name@,
        install_cmd: install_cmd@,
        search_cmd: search_cmd@,
        update_cmd: update_cmd@,
        probe: probe@,
        platform,
    }
}

/// The catalog, in order of preference: the Windows managers, then those of
/// macOS, then those of Linux, then the cross-platform ones.
pub open spec fn catalog() -> Seq<ManagerView> {
    seq![
        entry("chocolatey", "choco install", "choco search", "choco upgrade", "choco", Platform::Windows),
        entry("winget", "winget install", "winget search", "winget upgrade", "winget", Platform::Windows),
        entry("scoop", "scoop install", "scoop search", "scoop update", "scoop", Platform::Windows),
        entry("homebrew", "brew install", "brew search", "brew upgrade", "brew", Platform::MacOS),
        entry("macports", "port install", "port search", "port upgrade", "port", Platform::MacOS),
        entry("apt", "apt install", "apt search", "apt upgrade", "apt", Platform::Linux),
        entry("dnf", "dnf install", "dnf search", "dnf upgrade", "dnf", Platform::Linux),
        entry("pacman", "pacman -S", "pacman -Ss", "pacman -Syu", "pacman", Platform::Linux),
        entry("zypper", "zypper install", "zypper search", "zypper update", "zypper", Platform::Linux),
        entry("snap", "snap install", "snap find", "snap refresh", "snap", Platform::Any),
        entry("flatpak", "flatpak install", "flatpak search", "flatpak update", "flatpak", Platform::Any),
    ]
}

/// Whether a manager tagged `tag` can be used on `platform`.
pub open spec fn usable_on(tag: Platform, platform: Platform) -> bool {
    tag == platform || tag == Platform::Any
}

/// The managers of `s` usable on `platform`, in the order of `s`.
pub open spec fn usable(s: Seq<ManagerView>, platform: Platform) -> Seq<ManagerView> {
    s.filter(|m: ManagerView| usable_on(m.platform, platform))
}

/// No two managers of the catalog share a name.
pub proof fn lemma_catalog_names_distinct()
    ensures
        forall|i: int, j: int|
            0 <= i < catalog().len() && 0 <= j < catalog().len() && i != j ==> #[trigger] catalog()[i].name
                != #[trigger] catalog()[j].name,
{
    reveal_strlit("chocolatey");
    reveal_strlit("winget");
    reveal_strlit("scoop");
    reveal_strlit("homebrew");
    reveal_strlit("macports");
    reveal_strlit("apt");
    reveal_strlit("dnf");
    reveal_strlit("pacman");
    reveal_strlit("zypper");
    reveal_strlit("snap");
    reveal_strlit("flatpak");
    let c = catalog();
    assert forall|i: int, j: int|
        0 <= i < c.len() && 0 <= j < c.len() && i != j implies c[i].name != c[j].name by {
        if c[i].name.len() == c[j].name.len() {
            assert(c[i].name[0] != c[j].name[0]);
        }
    }
}

/// The managers usable on a platform are exactly those tagged with it or
/// with `Any`, and they keep the order they have in the registry: splitting
/// the registry in two splits the usable managers the same way.
pub proof fn lemma_usable_for(s: Seq<ManagerView>, t: Seq<ManagerView>, platform: Platform)
    ensures
        forall|i: int|
            0 <= i < usable(s, platform).len() ==> usable_on(
                #[trigger] usable(s, platform)[i].platform,
                platform,
            ),
        forall|i: int|
            0 <= i < s.len() && usable_on(s[i].platform, platform) ==> #[trigger] usable(
                s,
                platform,
            ).contains(s[i]),
        usable(s + t, platform) == usable(s, platform) + usable(t, platform),
{
    let pred = |m: ManagerView| usable_on(m.platform, platform);
    assert forall|i: int| 0 <= i < usable(s, platform).len() implies usable_on(
        #[trigger] usable(s, platform)[i].platform,
        platform,
    ) by {
        s.lemma_filter_pred(pred, i);
    }
    assert forall|i: int| 0 <= i < s.len() && usable_on(s[i].platform, platform) implies #[trigger] usable(
        s,
        platform,
    ).contains(s[i]) by {
        s.lemma_filter_contains(pred, i);
    }
    Seq::filter_distributes_over_add(s, t, pred);
}

/// Builds the catalog of known package managers.
pub fn package_managers() -> (r: Vec<PackageManager>)
    ensures
        views(r@) == catalog(),
{
    let r = vec![
        PackageManager { name: "chocolatey", install_cmd: "choco install", search_cmd: "choco search", update_cmd: "choco upgrade", probe: "choco", platform: Platform::Windows },
        PackageManager { name: "winget", install_cmd: "winget install", search_cmd: "winget search", update_cmd: "winget upgrade", probe: "winget", platform: Platform::Windows },
        PackageManager { name: "scoop", install_cmd: "scoop install", search_cmd: "scoop search", update_cmd: "scoop update", probe: "scoop", platform: Platform::Windows },
        PackageManager { name: "homebrew", install_cmd: "brew install", search_cmd: "brew search", update_cmd: "brew upgrade", probe: "brew", platform: Platform::MacOS },
        PackageManager { name: "macports", install_cmd: "port install", search_cmd: "port search", update_cmd: "port upgrade", probe: "port", platform: Platform::MacOS },
        PackageManager { name: "apt", install_cmd: "apt install", search_cmd: "apt search", update_cmd: "apt upgrade", probe: "apt", platform: Platform::Linux },
        PackageManager { name: "dnf", install_cmd: "dnf install", search_cmd: "dnf search", update_cmd: "dnf upgrade", probe: "dnf", platform: Platform::Linux },
        PackageManager { name: "pacman", install_cmd: "pacman -S", search_cmd: "pacman -Ss", update_cmd: "pacman -Syu", probe: "pacman", platform: Platform::Linux },
        PackageManager { name: "zypper", install_cmd: "zypper install", search_cmd: "zypper search", update_cmd: "zypper update", probe: "zypper", platform: Platform::Linux },
        PackageManager { name: "snap", install_cmd: "snap install", search_cmd: "snap find", update_cmd: "snap refresh", probe: "snap", platform: Platform::Any },
        PackageManager { name: "flatpak", install_cmd: "flatpak install", search_cmd: "flatpak search", update_cmd: "flatpak update", probe: "flatpak", platform: Platform::Any },
    ];
    assert(views(r@) =~= catalog());
    r
}

/// The managers of `registry` usable on `platform`: those tagged with that
/// platform or with `Any`, in registry order.
pub fn usable_for(registry: &Vec<PackageManager>, platform: Platform) -> (r: Vec<PackageManager>)
    ensures
        views(r@) == usable(views(registry@), platform),
{
    let mut out: Vec<PackageManager> = Vec::new();
    let mut i: usize = 0;
    while i < registry.len()
        invariant
            i <= registry@.len(),
            views(out@) == usable(views(registry@).subrange(0, i as int), platform),
        decreases registry@.len() - i,
    {
        let m = registry[i];
        let ghost before = out@;
        let ghost pre = views(registry@).subrange(0, i + 1);
        assert(pre.drop_last() =~= views(registry@).subrange(0, i as int));
        assert(pre.last() == m@);
        reveal(Seq::filter);
        if m.platform == platform || m.platform == Platform::Any {
            out.push(m);
            assert(views(out@) =~= views(before).push(m@));
        }
        i = i + 1;
    }
    assert(views(registry@).subrange(0, registry@.len() as int) =~= views(registry@));
    out
}

} // verus!
