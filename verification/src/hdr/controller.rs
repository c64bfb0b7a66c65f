//! HDR controller: the display cache and the decisions taken on it.
//!
//! The display-configuration calls themselves are made by the caller. The
//! controller holds the enumerated displays, tells which of them to switch,
//! reads the answers of the colour-information queries and turns failure codes
//! into errors.

use crate::error::{EasyHdrError, is_control_failure};
use crate::hdr::version::WindowsVersion;
use crate::hdr::windows_api::{
    DISPLAYCONFIG_GET_ADVANCED_COLOR_INFO, DISPLAYCONFIG_GET_ADVANCED_COLOR_INFO_2,
    DISPLAYCONFIG_SET_ADVANCED_COLOR_STATE, DISPLAYCONFIG_SET_HDR_STATE, LUID,
    set_advanced_color_record, set_hdr_state_record,
};
use crate::text::{signed_decimal_text, text_with_code};
use vstd::prelude::*;

verus! {

/// A display target.
#[derive(Debug, Clone, Copy, PartialEq, Eq, Structural)]
pub struct DisplayTarget {
    /// Adapter LUID
    pub adapter_id: LUID,
    /// Target ID
    pub target_id: u32,
    /// Whether this display supports HDR
    pub supports_hdr: bool,
}

/// One active display path, with the answer of its HDR-support query.
#[derive(Debug)]
pub struct DisplayProbe {
    /// Adapter LUID
    pub adapter_id: LUID,
    /// Target ID
    pub target_id: u32,
    /// What the HDR-support query gave for this path
    pub hdr_support: Result<bool, EasyHdrError>,
}

/// The display target recorded for a probed path: HDR counts as supported only
/// when the query answered that it is.
pub open spec fn target_of_probe(p: DisplayProbe) -> DisplayTarget {
    DisplayTarget {
        adapter_id: p.adapter_id,
        target_id: p.target_id,
        supports_hdr: p.hdr_support matches Ok(true),
    }
}

/// The display targets recorded for a sequence of probed paths.
pub open spec fn targets_of_probes(ps: Seq<DisplayProbe>) -> Seq<DisplayTarget> {
    ps.map_values(|p: DisplayProbe| target_of_probe(p))
}

/// The displays that support HDR, in cache order.
pub open spec fn hdr_capable(ds: Seq<DisplayTarget>) -> Seq<DisplayTarget> {
    ds.filter(|d: DisplayTarget| d.supports_hdr)
}

/// HDR is on when some HDR-capable display reports it enabled.
pub open spec fn any_hdr_enabled(
    ds: Seq<DisplayTarget>,
    enabled: Seq<Result<bool, EasyHdrError>>,
) -> bool {
    exists|i: int| 0 <= i < ds.len() && #[trigger] ds[i].supports_hdr && enabled[i] matches Ok(true)
}

/// Whether HDR counts as supported, from the legacy colour information:
/// advanced colour supported and wide colour not enforced.
pub open spec fn legacy_supported(info: DISPLAYCONFIG_GET_ADVANCED_COLOR_INFO) -> bool {
    info.value & 0x1 != 0 && info.value & 0x4 == 0
}

/// Whether HDR counts as enabled, from the legacy colour information:
/// advanced colour supported and enabled, wide colour not enforced.
pub open spec fn legacy_enabled(info: DISPLAYCONFIG_GET_ADVANCED_COLOR_INFO) -> bool {
    info.value & 0x1 != 0 && info.value & 0x2 != 0 && info.value & 0x4 == 0
}

/// What the legacy query tells, through `verdict`, or the error when it failed.
pub open spec fn legacy_answer(
    legacy: Option<Result<DISPLAYCONFIG_GET_ADVANCED_COLOR_INFO, i32>>,
    r: Result<bool, EasyHdrError>,
    enabled_query: bool,
) -> bool {
    match legacy {
        Some(Ok(l)) => r == Ok::<bool, EasyHdrError>(
            if enabled_query {
                legacy_enabled(l)
            } else {
                legacy_supported(l)
            },
        ),
        Some(Err(code)) => r is Err && is_control_failure(
            r->Err_0,
            "Failed to get advanced color info (legacy): error code "@ + signed_decimal_text(
                code as int,
            ),
        ),
        None => true,
    }
}

/// The answer to "does this display support HDR": on Windows 11 24H2 the newer
/// query's HDR-supported bit (bit 4) when that query succeeded, otherwise the
/// legacy query.
pub open spec fn support_answer(
    version: WindowsVersion,
    info2: Option<Result<DISPLAYCONFIG_GET_ADVANCED_COLOR_INFO_2, i32>>,
    legacy: Option<Result<DISPLAYCONFIG_GET_ADVANCED_COLOR_INFO, i32>>,
    r: Result<bool, EasyHdrError>,
) -> bool {
    if version == WindowsVersion::Windows11_24H2 {
        match info2 {
            Some(Ok(i)) => r == Ok::<bool, EasyHdrError>(i.value & 0x10 != 0),
            _ => legacy_answer(legacy, r, false),
        }
    } else {
        legacy_answer(legacy, r, false)
    }
}

/// The answer to "is HDR enabled on this display": on Windows 11 24H2 whether
/// the newer query reports the HDR colour mode (value 2) when that query
/// succeeded, otherwise the legacy query.
pub open spec fn enabled_answer(
    version: WindowsVersion,
    info2: Option<Result<DISPLAYCONFIG_GET_ADVANCED_COLOR_INFO_2, i32>>,
    legacy: Option<Result<DISPLAYCONFIG_GET_ADVANCED_COLOR_INFO, i32>>,
    r: Result<bool, EasyHdrError>,
) -> bool {
    if version == WindowsVersion::Windows11_24H2 {
        match info2 {
            Some(Ok(i)) => r == Ok::<bool, EasyHdrError>(i.activeColorMode == 2),
            _ => legacy_answer(legacy, r, true),
        }
    } else {
        legacy_answer(legacy, r, true)
    }
}

/// The answers of the colour-information queries for one display.
#[derive(Debug, Clone, Copy)]
pub struct ColorInfoAnswers {
    /// Answer of the newer query (Windows 11 24H2), when it was asked
    pub info2: Option<Result<DISPLAYCONFIG_GET_ADVANCED_COLOR_INFO_2, i32>>,
    /// Answer of the legacy query, when it was asked
    pub legacy: Option<Result<DISPLAYCONFIG_GET_ADVANCED_COLOR_INFO, i32>>,
}

/// The answers that decide for a Windows version are present: the newer
/// query's on Windows 11 24H2, and the legacy query's where the newer one is
/// not used or failed.
pub open spec fn answers_complete(version: WindowsVersion, a: ColorInfoAnswers) -> bool {
    &&& version == WindowsVersion::Windows11_24H2 ==> a.info2 is Some
    &&& (version != WindowsVersion::Windows11_24H2 || (a.info2 matches Some(Err(_)))) ==> a.legacy is Some
}

/// The outcome of switching HDR on one display from the status code Windows
/// returned: success for zero, else a control failure naming the request.
pub open spec fn switch_outcome(version: WindowsVersion, code: i32, r: Result<(), EasyHdrError>) -> bool {
    if code == 0 {
        r is Ok
    } else if version == WindowsVersion::Windows11_24H2 {
        r is Err && is_control_failure(
            r->Err_0,
            "Failed to set HDR state (24H2+): error code "@ + signed_decimal_text(code as int),
        )
    } else {
        r is Err && is_control_failure(
            r->Err_0,
            "Failed to set advanced color state: error code "@ + signed_decimal_text(code as int),
        )
    }
}

/// Whether a display supports HDR, from the query answers (see `support_answer`).
fn support_from_answers(version: WindowsVersion, a: ColorInfoAnswers) -> (r: Result<bool, EasyHdrError>)
    requires
        answers_complete(version, a),
    ensures
        support_answer(version, a.info2, a.legacy, r),
{
    if version == WindowsVersion::Windows11_24H2 {
        match a.info2 {
            Some(Ok(i)) => {
                return Ok(i.highDynamicRangeSupported());
            },
            _ => {},
        }
    }
    match a.legacy {
        Some(Ok(l)) => Ok(l.advancedColorSupported() && !l.wideColorEnforced()),
        Some(Err(code)) => Err(legacy_query_failure(code)),
        None => Ok(false),
    }
}

/// Whether HDR is enabled on a display, from the query answers (see `enabled_answer`).
fn enabled_from_answers(version: WindowsVersion, a: ColorInfoAnswers) -> (r: Result<bool, EasyHdrError>)
    requires
        answers_complete(version, a),
    ensures
        enabled_answer(version, a.info2, a.legacy, r),
{
    if version == WindowsVersion::Windows11_24H2 {
        match a.info2 {
            Some(Ok(i)) => {
                return Ok(i.activeColorMode == 2);
            },
            _ => {},
        }
    }
    match a.legacy {
        Some(Ok(l)) => Ok(
            l.advancedColorSupported() && l.advancedColorEnabled() && !l.wideColorEnforced(),
        ),
        Some(Err(code)) => Err(legacy_query_failure(code)),
        None => Ok(false),
    }
}

/// The probe of one active display path: its identity and whether it supports
/// HDR, decided from the colour-information answers as `is_hdr_supported` does.
pub fn probe_display(
    version: WindowsVersion,
    adapter_id: LUID,
    target_id: u32,
    answers: ColorInfoAnswers,
) -> (p: DisplayProbe)
    requires
        answers_complete(version, answers),
    ensures
        p.adapter_id == adapter_id,
        p.target_id == target_id,
        support_answer(version, answers.info2, answers.legacy, p.hdr_support),
{
    DisplayProbe { adapter_id, target_id, hdr_support: support_from_answers(version, answers) }
}

/// HDR controller
pub struct HdrController {
    /// Windows version
    windows_version: WindowsVersion,
    /// Cached display targets
    display_cache: Vec<DisplayTarget>,
}

/// A request that switches HDR on one display, in the form the Windows version
/// expects.
#[derive(Debug, Clone, Copy, PartialEq, Eq, Structural)]
pub enum HdrStateRequest {
    /// Windows 11 24H2 and later
    HdrState(DISPLAYCONFIG_SET_HDR_STATE),
    /// Windows 10 and Windows 11 before 24H2
    AdvancedColor(DISPLAYCONFIG_SET_ADVANCED_COLOR_STATE),
}

/// Error for a failed legacy colour-information query.
fn legacy_query_failure(code: i32) -> (e: EasyHdrError)
    ensures
        is_control_failure(e, "Failed to get advanced color info (legacy): error code "@ + signed_decimal_text(code as int)),
{
    EasyHdrError::HdrControlFailed(
        text_with_code("Failed to get advanced color info (legacy): error code ", code),
    )
}

/// Error for a failed query of the display-configuration buffer sizes.
pub fn buffer_sizes_failure(code: i32) -> (e: EasyHdrError)
    ensures
        is_control_failure(e, "Failed to get display config buffer sizes: error code "@ + signed_decimal_text(code as int)),
{
    EasyHdrError::HdrControlFailed(
        text_with_code("Failed to get display config buffer sizes: error code ", code),
    )
}

/// Error for a failed display-configuration query.
pub fn query_config_failure(code: i32) -> (e: EasyHdrError)
    ensures
        is_control_failure(e, "Failed to query display config: error code "@ + signed_decimal_text(code as int)),
{
    EasyHdrError::HdrControlFailed(text_with_code("Failed to query display config: error code ", code))
}

/// The display targets for probed paths.
fn targets_from_probes(probes: &Vec<DisplayProbe>) -> (targets: Vec<DisplayTarget>)
    ensures
        targets@ == targets_of_probes(probes@),
{
    let mut targets: Vec<DisplayTarget> = Vec::new();
    let mut i: usize = 0;
    while i < probes.len()
        invariant
            i <= probes@.len(),
            targets@ == targets_of_probes(probes@.take(i as int)),
        decreases probes@.len() - i,
    {
        let p = &probes[i];
        let supports = match &p.hdr_support {
            Ok(b) => *b,
            Err(_) => false,
        };
        targets.push(DisplayTarget { adapter_id: p.adapter_id, target_id: p.target_id, supports_hdr: supports });
        assert(probes@.take(i + 1) =~= probes@.take(i as int).push(probes@[i as int]));
        assert(targets_of_probes(probes@.take(i + 1)) =~= targets_of_probes(probes@.take(i as int)).push(
            target_of_probe(probes@[i as int]),
        ));
        i = i + 1;
    }
    assert(probes@.take(i as int) =~= probes@);
    targets
}

/// A copy of a sequence of display targets.
fn copy_targets(ds: &Vec<DisplayTarget>) -> (out: Vec<DisplayTarget>)
    ensures
        out@ == ds@,
{
    let mut out: Vec<DisplayTarget> = Vec::new();
    let mut i: usize = 0;
    while i < ds.len()
        invariant
            i <= ds@.len(),
            out@ == ds@.take(i as int),
        decreases ds@.len() - i,
    {
        out.push(ds[i]);
        assert(ds@.take(i + 1) =~= ds@.take(i as int).push(ds@[i as int]));
        i = i + 1;
    }
    assert(ds@.take(i as int) =~= ds@);
    out
}

impl HdrController {
    /// The Windows version the controller works for.
    pub closed spec fn version(&self) -> WindowsVersion {
        self.windows_version
    }

    /// The cached display targets.
    pub closed spec fn displays(&self) -> Seq<DisplayTarget> {
        self.display_cache@
    }

    /// Create a controller from the detected Windows version and the probed
    /// display paths. Fails with the first failure among the two.
    pub fn new(
        windows_version: Result<WindowsVersion, EasyHdrError>,
        probes: Result<Vec<DisplayProbe>, EasyHdrError>,
    ) -> (c: Result<HdrController, EasyHdrError>)
        ensures
            windows_version is Err ==> c is Err && c->Err_0 == windows_version->Err_0,
            windows_version is Ok && probes is Err ==> c is Err && c->Err_0 == probes->Err_0,
            windows_version is Ok && probes is Ok ==> c is Ok && c->Ok_0.version()
                == windows_version->Ok_0 && c->Ok_0.displays() == targets_of_probes(probes->Ok_0@),
    {
        let version = match windows_version {
            Ok(v) => v,
            Err(e) => return Err(e),
        };
        let probes = match probes {
            Ok(p) => p,
            Err(e) => return Err(e),
        };
        let display_cache = targets_from_probes(&probes);
        Ok(HdrController { windows_version: version, display_cache })
    }

    /// A controller for Windows 11 without any display, for use where no
    /// display configuration can be queried (tests).
    pub fn new_mock() -> (c: HdrController)
        ensures
            c.version() == WindowsVersion::Windows11,
            c.displays().len() == 0,
    {
        HdrController { windows_version: WindowsVersion::Windows11, display_cache: Vec::new() }
    }

    /// The cached display targets.
    pub fn get_display_cache(&self) -> (ds: &[DisplayTarget])
        ensures
            ds@ == self.displays(),
    {
        self.display_cache.as_slice()
    }

    /// The Windows version detected when the controller was created.
    pub fn get_windows_version(&self) -> (v: WindowsVersion)
        ensures
            v == self.version(),
    {
        self.windows_version
    }

    /// Whether HDR is on: true when some HDR-capable display reports HDR enabled.
    /// `enabled[i]` is the answer of the HDR-enabled query for display `i`; the
    /// answers for displays without HDR support are not read.
    pub fn detect_current_hdr_state(&self, enabled: &Vec<Result<bool, EasyHdrError>>) -> (on: bool)
        requires
            enabled@.len() == self.displays().len(),
        ensures
            on == any_hdr_enabled(self.displays(), enabled@),
    {
        let mut i: usize = 0;
        while i < self.display_cache.len()
            invariant
                i <= self.display_cache@.len(),
                enabled@.len() == self.display_cache@.len(),
                forall|j: int|
                    0 <= j < i ==> !(#[trigger] self.display_cache@[j].supports_hdr && enabled@[j] matches Ok(
                        true,
                    )),
            decreases self.display_cache@.len() - i,
        {
            if self.display_cache[i].supports_hdr {
                match &enabled[i] {
                    Ok(true) => {
                        assert(self.display_cache@[i as int].supports_hdr);
                        return true;
                    },
                    _ => {},
                }
            }
            i = i + 1;
        }
        false
    }

    /// Re-enumerate: replace the display cache with the probed paths, or keep
    /// it and fail when the enumeration failed.
    pub fn enumerate_displays(&mut self, probes: Result<Vec<DisplayProbe>, EasyHdrError>) -> (r: Result<
        Vec<DisplayTarget>,
        EasyHdrError,
    >)
        ensures
            final(self).version() == old(self).version(),
            probes is Err ==> r is Err && r->Err_0 == probes->Err_0 && final(self).displays()
                == old(self).displays(),
            probes is Ok ==> r is Ok && final(self).displays() == targets_of_probes(probes->Ok_0@)
                && r->Ok_0@ == final(self).displays(),
    {
        match probes {
            Err(e) => Err(e),
            Ok(ps) => {
                self.display_cache = targets_from_probes(&ps);
                Ok(copy_targets(&self.display_cache))
            },
        }
    }

    /// Refresh the display cache after a change of the display configuration.
    pub fn refresh_displays(&mut self, probes: Result<Vec<DisplayProbe>, EasyHdrError>) -> (r: Result<
        Vec<DisplayTarget>,
        EasyHdrError,
    >)
        ensures
            final(self).version() == old(self).version(),
            probes is Err ==> r is Err && r->Err_0 == probes->Err_0 && final(self).displays()
                == old(self).displays(),
            probes is Ok ==> r is Ok && final(self).displays() == targets_of_probes(probes->Ok_0@)
                && r->Ok_0@ == final(self).displays(),
    {
        self.enumerate_displays(probes)
    }

    /// The displays on which HDR is switched, in cache order.
    pub fn hdr_capable_targets(&self) -> (ts: Vec<DisplayTarget>)
        ensures
            ts@ == hdr_capable(self.displays()),
    {
        let mut ts: Vec<DisplayTarget> = Vec::new();
        let mut i: usize = 0;
        while i < self.display_cache.len()
            invariant
                i <= self.display_cache@.len(),
                ts@ == hdr_capable(self.display_cache@.take(i as int)),
            decreases self.display_cache@.len() - i,
        {
            let d = self.display_cache[i];
            if d.supports_hdr {
                ts.push(d);
            }
            assert(self.display_cache@.take(i + 1) =~= self.display_cache@.take(i as int).push(d));
            proof {
                self.display_cache@.take(i as int).lemma_filter_push(d, |d: DisplayTarget| d.supports_hdr);
            }
            i = i + 1;
        }
        assert(self.display_cache@.take(i as int) =~= self.display_cache@);
        ts
    }

    /// Switch HDR on or off on every HDR-capable display: pairs each such display,
    /// in cache order, with the outcome of the switch on it. Displays without HDR
    /// support are skipped; failures on single displays leave the others alone.
    pub fn set_hdr_global(&self, enable: bool, outcomes: Vec<Result<(), EasyHdrError>>) -> (r: Result<
        Vec<(DisplayTarget, Result<(), EasyHdrError>)>,
        EasyHdrError,
    >)
        requires
            outcomes@.len() == hdr_capable(self.displays()).len(),
        ensures
            r is Ok,
            r->Ok_0@.len() == outcomes@.len(),
            forall|i: int|
                0 <= i < outcomes@.len() ==> (#[trigger] r->Ok_0@[i]).0 == hdr_capable(
                    self.displays(),
                )[i] && r->Ok_0@[i].1 == outcomes@[i],
    {
        let targets = self.hdr_capable_targets();
        let mut results: Vec<(DisplayTarget, Result<(), EasyHdrError>)> = Vec::new();
        let mut outcomes = outcomes;
        let ghost all_outcomes = outcomes@;
        let n = targets.len();
        let mut k: usize = 0;
        while k < n
            invariant
                n == targets@.len(),
                targets@ == hdr_capable(self.displays()),
                all_outcomes.len() == n,
                k <= n,
                outcomes@.len() == n - k,
                forall|j: int| 0 <= j < n - k ==> outcomes@[j] == all_outcomes[k + j],
                results@.len() == k,
                forall|j: int|
                    0 <= j < k ==> (#[trigger] results@[j]).0 == targets@[j] && results@[j].1
                        == all_outcomes[j],
            decreases n - k,
        {
            let o = outcomes.remove(0);
            results.push((targets[k], o));
            k = k + 1;
        }
        Ok(results)
    }

    /// Whether the display supports HDR, from the colour-information queries.
    ///
    /// On Windows 11 24H2 the newer query decides (HDR-supported bit); when it
    /// failed, and on earlier versions, the legacy query decides (advanced colour
    /// supported and wide colour not enforced). A failed legacy query is an error.
    /// `info2` is the answer of the newer query and `legacy` that of the legacy
    /// query; an answer that is not needed may be left out.
    pub fn is_hdr_supported(
        &self,
        info2: Option<Result<DISPLAYCONFIG_GET_ADVANCED_COLOR_INFO_2, i32>>,
        legacy: Option<Result<DISPLAYCONFIG_GET_ADVANCED_COLOR_INFO, i32>>,
    ) -> (r: Result<bool, EasyHdrError>)
        requires
            self.version() == WindowsVersion::Windows11_24H2 ==> info2 is Some,
            self.version() != WindowsVersion::Windows11_24H2 || (info2 matches Some(Err(_)))
                ==> legacy is Some,
        ensures
            support_answer(self.version(), info2, legacy, r),
    {
        support_from_answers(self.windows_version, ColorInfoAnswers { info2, legacy })
    }

    /// Whether HDR is currently enabled on the display, from the
    /// colour-information queries.
    ///
    /// On Windows 11 24H2 the newer query decides (active colour mode is HDR);
    /// when it failed, and on earlier versions, the legacy query decides
    /// (advanced colour supported and enabled, wide colour not enforced).
    pub fn is_hdr_enabled(
        &self,
        info2: Option<Result<DISPLAYCONFIG_GET_ADVANCED_COLOR_INFO_2, i32>>,
        legacy: Option<Result<DISPLAYCONFIG_GET_ADVANCED_COLOR_INFO, i32>>,
    ) -> (r: Result<bool, EasyHdrError>)
        requires
            self.version() == WindowsVersion::Windows11_24H2 ==> info2 is Some,
            self.version() != WindowsVersion::Windows11_24H2 || (info2 matches Some(Err(_)))
                ==> legacy is Some,
        ensures
            enabled_answer(self.version(), info2, legacy, r),
    {
        enabled_from_answers(self.windows_version, ColorInfoAnswers { info2, legacy })
    }

    /// The request that switches HDR on one display: the HDR-state request on
    /// Windows 11 24H2, the advanced-colour request before.
    pub fn set_hdr_state_request(&self, target: &DisplayTarget, enable: bool) -> (req: HdrStateRequest)
        ensures
            self.version() == WindowsVersion::Windows11_24H2 ==> req
                == HdrStateRequest::HdrState(
                set_hdr_state_record(target.adapter_id, target.target_id, enable),
            ),
            self.version() != WindowsVersion::Windows11_24H2 ==> req
                == HdrStateRequest::AdvancedColor(
                set_advanced_color_record(
                    target.adapter_id,
                    target.target_id,
                    enable,
                ),
            ),
    {
        if self.windows_version == WindowsVersion::Windows11_24H2 {
            HdrStateRequest::HdrState(
                DISPLAYCONFIG_SET_HDR_STATE::new(target.adapter_id, target.target_id, enable),
            )
        } else {
            HdrStateRequest::AdvancedColor(
                DISPLAYCONFIG_SET_ADVANCED_COLOR_STATE::new(target.adapter_id, target.target_id, enable),
            )
        }
    }

    /// The outcome of switching HDR on one display, from the status code that
    /// Windows returned (zero is success).
    pub fn set_hdr_state_outcome(&self, code: i32) -> (r: Result<(), EasyHdrError>)
        ensures
            switch_outcome(self.version(), code, r),
    {
        if code == 0 {
            Ok(())
        } else if self.windows_version == WindowsVersion::Windows11_24H2 {
            Err(
                EasyHdrError::HdrControlFailed(
                    text_with_code("Failed to set HDR state (24H2+): error code ", code),
                ),
            )
        } else {
            Err(
                EasyHdrError::HdrControlFailed(
                    text_with_code("Failed to set advanced color state: error code ", code),
                ),
            )
        }
    }

    /// The answers of the HDR-enabled query for the cached displays, from the
    /// colour-information answers of each: decided as `is_hdr_enabled` does for
    /// a display that supports HDR; a display without HDR support is not
    /// queried and counts as off.
    pub fn hdr_enabled_answers(&self, answers: &Vec<ColorInfoAnswers>) -> (r: Vec<Result<bool, EasyHdrError>>)
        requires
            answers@.len() == self.displays().len(),
            forall|i: int|
                0 <= i < answers@.len() && (#[trigger] self.displays()[i]).supports_hdr ==> answers_complete(
                    self.version(),
                    answers@[i],
                ),
        ensures
            r@.len() == answers@.len(),
            forall|i: int|
                0 <= i < r@.len() ==> if (#[trigger] self.displays()[i]).supports_hdr {
                    enabled_answer(self.version(), answers@[i].info2, answers@[i].legacy, r@[i])
                } else {
                    r@[i] matches Ok(false)
                },
    {
        let mut r: Vec<Result<bool, EasyHdrError>> = Vec::new();
        let mut i: usize = 0;
        while i < answers.len()
            invariant
                i <= answers@.len(),
                answers@.len() == self.display_cache@.len(),
                self.displays() == self.display_cache@,
                forall|j: int|
                    0 <= j < answers@.len() && (#[trigger] self.displays()[j]).supports_hdr
                        ==> answers_complete(self.version(), answers@[j]),
                r@.len() == i,
                forall|j: int|
                    0 <= j < i ==> if (#[trigger] self.displays()[j]).supports_hdr {
                        enabled_answer(self.version(), answers@[j].info2, answers@[j].legacy, r@[j])
                    } else {
                        r@[j] matches Ok(false)
                    },
            decreases answers@.len() - i,
        {
            let a = answers[i];
            let answer = if self.display_cache[i].supports_hdr {
                assert(self.displays()[i as int].supports_hdr);
                enabled_from_answers(self.windows_version, a)
            } else {
                Ok(false)
            };
            r.push(answer);
            assert(self.displays()[i as int] == self.display_cache@[i as int]);
            i = i + 1;
        }
        r
    }

    /// The outcomes of switching HDR on displays, from the status codes that
    /// Windows returned for them, in order (see `set_hdr_state_outcome`).
    pub fn set_hdr_outcomes(&self, codes: &Vec<i32>) -> (r: Vec<Result<(), EasyHdrError>>)
        ensures
            r@.len() == codes@.len(),
            forall|i: int| 0 <= i < r@.len() ==> switch_outcome(self.version(), codes@[i], #[trigger] r@[i]),
    {
        let mut r: Vec<Result<(), EasyHdrError>> = Vec::new();
        let mut i: usize = 0;
        while i < codes.len()
            invariant
                i <= codes@.len(),
                r@.len() == i,
                forall|j: int| 0 <= j < i ==> switch_outcome(self.version(), codes@[j], #[trigger] r@[j]),
            decreases codes@.len() - i,
        {
            let o = self.set_hdr_state_outcome(codes[i]);
            r.push(o);
            i = i + 1;
        }
        r
    }
}

/// On the legacy path, HDR counts as enabled only when the display reports
/// advanced colour enabled (bit 1): an answer with that bit clear is "off",
/// whatever the other bits say, and an "on" answer comes with advanced colour
/// supported (bit 0) and wide colour not enforced (bit 2) as well, so that the
/// display then also counts as supporting HDR.
pub proof fn lemma_legacy_enabled_needs_enabled_bit(
    version: WindowsVersion,
    info2: Option<Result<DISPLAYCONFIG_GET_ADVANCED_COLOR_INFO_2, i32>>,
    legacy: DISPLAYCONFIG_GET_ADVANCED_COLOR_INFO,
    r: Result<bool, EasyHdrError>,
)
    requires
        version != WindowsVersion::Windows11_24H2 || !(info2 matches Some(Ok(_))),
        enabled_answer(version, info2, Some(Ok(legacy)), r),
    ensures
        r is Ok,
        legacy.value & 0x2 == 0 ==> r == Ok::<bool, EasyHdrError>(false),
        r == Ok::<bool, EasyHdrError>(true) ==> legacy.value & 0x1 != 0 && legacy.value & 0x2 != 0
            && legacy.value & 0x4 == 0,
        r == Ok::<bool, EasyHdrError>(true) ==> support_answer(
            version,
            info2,
            Some(Ok(legacy)),
            Ok::<bool, EasyHdrError>(true),
        ),
{
}

/// On Windows 11 24H2, when the newer query answered, HDR support is its
/// HDR-supported bit (bit 4) alone: with that bit clear the display does not
/// support HDR, with it set it does, and two answers that agree on it give the
/// same result whatever their other bits and whatever the legacy query said.
pub proof fn lemma_24h2_support_is_hdr_bit(
    i: DISPLAYCONFIG_GET_ADVANCED_COLOR_INFO_2,
    j: DISPLAYCONFIG_GET_ADVANCED_COLOR_INFO_2,
    legacy_i: Option<Result<DISPLAYCONFIG_GET_ADVANCED_COLOR_INFO, i32>>,
    legacy_j: Option<Result<DISPLAYCONFIG_GET_ADVANCED_COLOR_INFO, i32>>,
    ri: Result<bool, EasyHdrError>,
    rj: Result<bool, EasyHdrError>,
)
    requires
        support_answer(WindowsVersion::Windows11_24H2, Some(Ok(i)), legacy_i, ri),
        support_answer(WindowsVersion::Windows11_24H2, Some(Ok(j)), legacy_j, rj),
    ensures
        ri is Ok,
        i.value & 0x10 == 0 ==> ri == Ok::<bool, EasyHdrError>(false),
        i.value & 0x10 != 0 ==> ri == Ok::<bool, EasyHdrError>(true),
        i.value & 0x10 == j.value & 0x10 ==> ri == rj,
{
}

} // verus!
