//! Completing a loaded configuration: icons restored from the icon cache and
//! icons regenerated for the applications that still have none.
//!
//! Reading and writing the configuration file and the cache files is done by
//! the caller, which hands in what it read.

use crate::config::models::{
    AppConfig, MonitoredApp, MonitoredAppView, copy_icon, first_with_id, icon_if_present, icon_view,
    lemma_first_with_id,
};
use crate::error::EasyHdrError;
use crate::utils::icon_extractor::{IconSource, extracted_icon, valid_icon_source};
use vstd::prelude::*;

verus! {

/// Configuration manager
pub struct ConfigManager;

/// The icon found in the cache for an application, if one was loaded.
pub open spec fn loaded_icon(r: Result<Option<Vec<u8>>, EasyHdrError>) -> Option<Seq<u8>> {
    match r {
        Ok(Some(v)) => Some(v@),
        _ => None,
    }
}

/// The (identifier, icon) pairs that the cache answers give, in the order of
/// the applications.
pub open spec fn icons_found(apps: Seq<MonitoredAppView>, loads: Seq<Option<Seq<u8>>>) -> Seq<
    (u128, Seq<u8>),
>
    decreases loads.len(),
{
    if loads.len() == 0 {
        Seq::empty()
    } else {
        let before = icons_found(apps, loads.drop_last());
        match loads.last() {
            Some(icon) => before.push((apps[loads.len() - 1].id(), icon)),
            None => before,
        }
    }
}

/// The list with the icon given to the first application of the identifier.
pub open spec fn apply_icon(apps: Seq<MonitoredAppView>, item: (u128, Seq<u8>)) -> Seq<
    MonitoredAppView,
> {
    let k = first_with_id(apps, item.0);
    if k >= 0 {
        apps.update(k, apps[k].with_icon(Some(item.1)))
    } else {
        apps
    }
}

/// The list with the icons given in order.
pub open spec fn apply_icons(apps: Seq<MonitoredAppView>, items: Seq<(u128, Seq<u8>)>) -> Seq<
    MonitoredAppView,
>
    decreases items.len(),
{
    if items.len() == 0 {
        apps
    } else {
        apply_icon(apply_icons(apps, items.drop_last()), items.last())
    }
}

/// What the system offers for regenerating the icon of one application.
#[derive(Debug)]
pub enum IconRecovery {
    /// What the shell gave for the executable's icon (Win32 applications)
    Executable(IconSource),
    /// The icon extracted from the package logo (UWP applications); `None`
    /// when the packages could not be listed, the package is not installed or
    /// it has no logo
    PackageLogo(Option<Result<Vec<u8>, EasyHdrError>>),
}

/// A recovery that the icon conversion accepts.
pub open spec fn valid_recovery(r: IconRecovery) -> bool {
    match r {
        IconRecovery::Executable(source) => valid_icon_source(source),
        _ => true,
    }
}

/// The icon recovered for an application: from its executable for a Win32
/// application, from its package logo for a UWP application; none when the
/// recovery gave no bytes.
pub open spec fn recovered_icon(app: MonitoredAppView, r: IconRecovery) -> Option<Seq<u8>> {
    match (app, r) {
        (MonitoredAppView::Win32(_), IconRecovery::Executable(source)) => icon_if_present(
            extracted_icon(source),
        ),
        (MonitoredAppView::Uwp(_), IconRecovery::PackageLogo(Some(Ok(data)))) => icon_if_present(
            data@,
        ),
        _ => None,
    }
}

/// An application after regeneration: unchanged when it holds an icon, else
/// with the recovered icon.
pub open spec fn regenerated(app: MonitoredAppView, r: IconRecovery) -> MonitoredAppView {
    if app.icon_data() is Some {
        app
    } else {
        app.with_icon(recovered_icon(app, r))
    }
}

/// The icons regenerated, with the identifiers of their applications, in order.
pub open spec fn regenerated_icons(apps: Seq<MonitoredAppView>, rs: Seq<IconRecovery>) -> Seq<
    (u128, Seq<u8>),
>
    decreases apps.len(),
{
    if apps.len() == 0 {
        Seq::empty()
    } else {
        let before = regenerated_icons(apps.drop_last(), rs);
        let k = apps.len() - 1;
        if apps[k].icon_data() is None && recovered_icon(apps[k], rs[k]) is Some {
            before.push((apps[k].id(), recovered_icon(apps[k], rs[k])->Some_0))
        } else {
            before
        }
    }
}

/// The icons regenerated so far: `regenerated_icons` over the first `n` applications.
proof fn lemma_regenerated_icons_prefix(apps: Seq<MonitoredAppView>, rs: Seq<IconRecovery>, n: int)
    requires
        0 <= n < apps.len(),
    ensures
        regenerated_icons(apps.take(n + 1), rs) == ({
            let before = regenerated_icons(apps.take(n), rs);
            if apps[n].icon_data() is None && recovered_icon(apps[n], rs[n]) is Some {
                before.push((apps[n].id(), recovered_icon(apps[n], rs[n])->Some_0))
            } else {
                before
            }
        }),
{
    assert(apps.take(n + 1).drop_last() =~= apps.take(n));
}

/// Index of the first package with the family name.
pub fn find_package_index(family_names: &Vec<String>, package_family_name: &str) -> (r: Option<
    usize,
>)
    ensures
        match r {
            Some(k) => k < family_names@.len() && family_names@[k as int]@ == package_family_name@
                && forall|j: int| 0 <= j < k ==> family_names@[j]@ != package_family_name@,
            None => forall|j: int|
                0 <= j < family_names@.len() ==> family_names@[j]@ != package_family_name@,
        },
{
    let target = String::from_str(package_family_name);
    let mut i: usize = 0;
    while i < family_names.len()
        invariant
            i <= family_names@.len(),
            target@ == package_family_name@,
            forall|j: int| 0 <= j < i ==> family_names@[j]@ != package_family_name@,
        decreases family_names@.len() - i,
    {
        if family_names[i] == target {
            return Some(i);
        }
        i = i + 1;
    }
    None
}

impl ConfigManager {
    /// Restore icons from the icon cache. `loads` holds the answer of the cache
    /// for each application, in order (`None` when the cache could not be
    /// opened). Each icon that was loaded goes to the first application with
    /// the same identifier; failed loads are skipped.
    pub fn restore_icons_from_cache(
        config: &mut AppConfig,
        loads: Option<Vec<Result<Option<Vec<u8>>, EasyHdrError>>>,
    ) -> (r: Result<(), EasyHdrError>)
        requires
            loads matches Some(l) ==> l@.len() == old(config).monitored_apps@.len(),
        ensures
            r is Ok,
            *final(config) == (AppConfig { monitored_apps: final(config).monitored_apps, ..*old(config) }),
            loads is None ==> final(config).monitored_apps.deep_view() == old(
                config,
            ).monitored_apps.deep_view(),
            loads matches Some(l) ==> final(config).monitored_apps.deep_view() == apply_icons(
                old(config).monitored_apps.deep_view(),
                icons_found(
                    old(config).monitored_apps.deep_view(),
                    l@.map_values(|x: Result<Option<Vec<u8>>, EasyHdrError>| loaded_icon(x)),
                ),
            ),
    {
        let loads = match loads {
            None => return Ok(()),
            Some(l) => l,
        };
        let ghost apps0 = config.monitored_apps.deep_view();
        let ghost prefs0 = config.preferences;
        let ghost window0 = config.window_state;
        let ghost lv = loads@.map_values(|x: Result<Option<Vec<u8>>, EasyHdrError>| loaded_icon(x));
        let mut icons: Vec<(u128, Vec<u8>)> = Vec::new();
        let mut i: usize = 0;
        while i < loads.len()
            invariant
                i <= loads@.len(),
                config.preferences == prefs0,
                config.window_state == window0,
                prefs0 == old(config).preferences,
                window0 == old(config).window_state,
                loads@.len() == apps0.len(),
                apps0 == config.monitored_apps.deep_view(),
                lv == loads@.map_values(|x: Result<Option<Vec<u8>>, EasyHdrError>| loaded_icon(x)),
                icons@.map_values(|p: (u128, Vec<u8>)| (p.0, p.1@)) == icons_found(
                    apps0,
                    lv.take(i as int),
                ),
            decreases loads@.len() - i,
        {
            proof {
                assert(lv.take(i + 1).drop_last() =~= lv.take(i as int));
            }
            match &loads[i] {
                Ok(Some(data)) => {
                    let ghost before = icons@;
                    let copied = copy_icon(&Some(data.clone()));
                    match copied {
                        Some(bytes) => {
                            let id = config.monitored_apps[i].id();
                            icons.push((id, bytes));
                            assert(icons@.map_values(|p: (u128, Vec<u8>)| (p.0, p.1@)) =~= before.map_values(
                                |p: (u128, Vec<u8>)| (p.0, p.1@),
                            ).push((apps0[i as int].id(), lv[i as int]->Some_0)));
                        },
                        None => {},
                    }
                },
                _ => {},
            }
            i = i + 1;
        }
        assert(lv.take(i as int) =~= lv);
        let ghost items = icons@.map_values(|p: (u128, Vec<u8>)| (p.0, p.1@));
        let mut j: usize = 0;
        let mut icons = icons;
        let n = icons.len();
        while j < n
            invariant
                n == items.len(),
                config.preferences == prefs0,
                config.window_state == window0,
                prefs0 == old(config).preferences,
                window0 == old(config).window_state,
                j <= n,
                icons@.len() == n - j,
                forall|t: int|
                    0 <= t < n - j ==> (#[trigger] icons@[t]).0 == items[j + t].0 && icons@[t].1@
                        == items[j + t].1,
                config.monitored_apps.deep_view() == apply_icons(apps0, items.take(j as int)),
            decreases n - j,
        {
            let (id, data) = icons.remove(0);
            let ghost cur = config.monitored_apps.deep_view();
            proof {
                assert(items.take(j + 1).drop_last() =~= items.take(j as int));
                assert(items.take(j + 1).last() == (id, data@));
            }
            let mut k: usize = 0;
            while k < config.monitored_apps.len() && config.monitored_apps[k].id() != id
                invariant
                    k <= cur.len(),
                    config.preferences == prefs0,
                    config.window_state == window0,
                    prefs0 == old(config).preferences,
                    window0 == old(config).window_state,
                    cur == config.monitored_apps.deep_view(),
                    forall|t: int| 0 <= t < k ==> (#[trigger] cur[t]).id() != id,
                decreases cur.len() - k,
            {
                k = k + 1;
            }
            proof {
                lemma_first_with_id(cur, id, k as int);
            }
            if k < config.monitored_apps.len() {
                let ghost dv = data@;
                let mut app = config.monitored_apps.remove(k);
                *app.icon_data_mut() = Some(data);
                config.monitored_apps.insert(k, app);
                assert(config.monitored_apps.deep_view() =~= cur.update(
                    k as int,
                    cur[k as int].with_icon(Some(dv)),
                ));
            }
            j = j + 1;
        }
        assert(items.take(j as int) =~= items);
        Ok(())
    }

    /// Regenerate the icons that are still missing. `recovered[i]` is what the
    /// system offers for application `i` (read only when it holds no icon).
    /// Applications with an icon are left alone; the others take the recovered
    /// icon when there is one. Returns the regenerated icons with the
    /// identifiers of their applications, for the caller to cache.
    pub fn regenerate_missing_icons(config: &mut AppConfig, recovered: Vec<IconRecovery>) -> (icons:
        Vec<(u128, Vec<u8>)>)
        requires
            recovered@.len() == old(config).monitored_apps@.len(),
            forall|i: int| 0 <= i < recovered@.len() ==> valid_recovery(#[trigger] recovered@[i]),
        ensures
            *final(config) == (AppConfig { monitored_apps: final(config).monitored_apps, ..*old(config) }),
            final(config).monitored_apps.deep_view() == Seq::new(
                old(config).monitored_apps@.len(),
                |i: int| regenerated(old(config).monitored_apps.deep_view()[i], recovered@[i]),
            ),
            icons@.map_values(|p: (u128, Vec<u8>)| (p.0, p.1@)) == regenerated_icons(
                old(config).monitored_apps.deep_view(),
                recovered@,
            ),
    {
        let ghost apps0 = config.monitored_apps.deep_view();
        let ghost prefs0 = config.preferences;
        let ghost window0 = config.window_state;
        let ghost recs = recovered@;
        let ghost target = Seq::new(apps0.len(), |i: int| regenerated(apps0[i], recs[i]));
        let n = config.monitored_apps.len();
        let mut rest = recovered;
        let mut icons: Vec<(u128, Vec<u8>)> = Vec::new();
        let mut i: usize = 0;
        assert(apps0.take(0) =~= Seq::<MonitoredAppView>::empty());
        while i < n
            invariant
                n == apps0.len(),
                config.preferences == prefs0,
                config.window_state == window0,
                prefs0 == old(config).preferences,
                window0 == old(config).window_state,
                recs.len() == n,
                target == Seq::new(apps0.len(), |t: int| regenerated(apps0[t], recs[t])),
                forall|t: int| 0 <= t < recs.len() ==> valid_recovery(#[trigger] recs[t]),
                i <= n,
                rest@.len() == n - i,
                forall|t: int| 0 <= t < n - i ==> #[trigger] rest@[t] == recs[i + t],
                config.monitored_apps@.len() == n,
                forall|t: int| 0 <= t < i ==> #[trigger] config.monitored_apps.deep_view()[t] == target[t],
                forall|t: int|
                    i <= t < n ==> #[trigger] config.monitored_apps.deep_view()[t] == apps0[t],
                icons@.map_values(|p: (u128, Vec<u8>)| (p.0, p.1@)) == regenerated_icons(
                    apps0.take(i as int),
                    recs,
                ),
            decreases n - i,
        {
            let rec = rest.remove(0);
            assert(rec == recs[i as int]);
            let ghost before_icons = icons@.map_values(|p: (u128, Vec<u8>)| (p.0, p.1@));
            let ghost cur = config.monitored_apps.deep_view();
            proof {
                lemma_regenerated_icons_prefix(apps0, recs, i as int);
                assert(apps0.take(i + 1)[i as int] == apps0[i as int]);
            }
            assert(cur[i as int] == apps0[i as int]);
            let mut app = config.monitored_apps.remove(i);
            let ghost a0 = app@;
            assert(a0 == cur[i as int]);
            assert(a0 == apps0[i as int]);
            let had_icon = app.icon_data().is_some();
            if !had_icon {
                match rec {
                    IconRecovery::Executable(source) => {
                        if let MonitoredApp::Win32(_) = &app {
                            app.ensure_icon_loaded(source);
                        }
                    },
                    IconRecovery::PackageLogo(logo) => {
                        if let MonitoredApp::Uwp(_) = &app {
                            match logo {
                                Some(Ok(data)) => {
                                    if data.len() > 0 {
                                        *app.icon_data_mut() = Some(data);
                                    } else {
                                        *app.icon_data_mut() = None;
                                    }
                                },
                                _ => {
                                    *app.icon_data_mut() = None;
                                },
                            }
                        }
                    },
                }
            }
            assert(app@ == target[i as int]);
            if !had_icon {
                let fresh = copy_icon_of(&app);
                match fresh {
                    Some(bytes) => {
                        icons.push((app.id(), bytes));
                        assert(icons@.map_values(|p: (u128, Vec<u8>)| (p.0, p.1@)) =~= before_icons.push(
                            (a0.id(), recovered_icon(a0, recs[i as int])->Some_0),
                        ));
                    },
                    None => {},
                }
            }
            config.monitored_apps.insert(i, app);
            assert forall|t: int| 0 <= t < i + 1 implies #[trigger] config.monitored_apps.deep_view()[t]
                == target[t] by {
                if t < i {
                    assert(config.monitored_apps.deep_view()[t] == cur[t]);
                }
            }
            assert forall|t: int| i + 1 <= t < n implies #[trigger] config.monitored_apps.deep_view()[t]
                == apps0[t] by {
                assert(config.monitored_apps.deep_view()[t] == cur[t]);
            }
            i = i + 1;
        }
        assert(apps0.take(i as int) =~= apps0);
        assert(config.monitored_apps.deep_view() =~= target);
        icons
    }
}

/// A copy of the icon an application holds.
fn copy_icon_of(app: &MonitoredApp) -> (r: Option<Vec<u8>>)
    ensures
        icon_view(r) == app@.icon_data(),
{
    match app {
        MonitoredApp::Win32(a) => copy_icon(&a.icon_data),
        MonitoredApp::Uwp(a) => copy_icon(&a.icon_data),
    }
}

} // verus!
