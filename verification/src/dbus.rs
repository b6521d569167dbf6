//! What the session bus is told of outputs and windows.
use vstd::prelude::*;
use std::collections::HashMap;
use crate::decimal::{decimal, signed_text};
use crate::float::F64;
use crate::text::{chars_of, same};

verus! {

/// A mode of an output.
#[derive(Debug, PartialEq, Eq)]
pub struct IpcOutputMode {
    pub id: u64,
    pub width: i64,
    pub height: i64,
    pub refresh_rate: F64,
    /// The refresh rate with three decimals.
    pub refresh_text: String,
}

/// Where an output is on the desktop.
#[derive(Debug, PartialEq, Eq)]
pub struct IpcOutputLogical {
    pub x: i32,
    pub y: i32,
    pub width: i64,
    pub height: i64,
    pub scale: F64,
    pub transform: u32,
    pub current_mode_id: u64,
    pub modes: Vec<IpcOutputMode>,
}

/// An output, as the services on the session bus see it.
#[derive(Debug, PartialEq, Eq)]
pub struct IpcOutput {
    pub name: String,
    pub make: String,
    pub model: String,
    pub serial: String,
    pub logical: Option<IpcOutputLogical>,
}

/// Where the first dash is, or the end.
pub open spec fn dash_at(text: Seq<char>, at: int) -> bool {
    &&& 0 <= at <= text.len()
    &&& at < text.len() ==> text[at] == '-'
    &&& forall|i: int| 0 <= i < at ==> text[i] != '-'
}

/// Whether a connector is that of a built-in panel: what comes before its first
/// dash says so.
pub open spec fn laptop_connector(connector: Seq<char>) -> bool {
    exists|at: int| #[trigger]
        dash_at(connector, at) && (connector.take(at) == "eDP"@ || connector.take(at) == "LVDS"@)
}

/// Whether a connector is that of a built-in panel.
pub fn is_laptop_panel(connector: &str) -> (r: bool)
    ensures
        r == laptop_connector(connector@),
{
    let c = chars_of(connector);
    let mut prefix = String::new();
    let mut i: usize = 0;
    while i < c.len() && c[i] != '-'
        invariant
            c@ == connector@,
            i <= c@.len(),
            prefix@ == c@.take(i as int),
            forall|k: int| 0 <= k < i ==> c@[k] != '-',
        decreases c@.len() - i,
    {
        prefix.push(c[i]);
        i = i + 1;
        assert(prefix@ =~= c@.take(i as int));
    }
    assert(dash_at(connector@, i as int));
    assert(forall|at: int| #[trigger] dash_at(connector@, at) ==> at == i) by {
        assert forall|at: int| #[trigger] dash_at(connector@, at) implies at == i by {
            if at < i {
                assert(c@[at] != '-');
            } else if at > i {
                assert(connector@[i as int] == '-');
            }
        }
    }
    same(&prefix, "eDP") || same(&prefix, "LVDS")
}

/// The name of an output for people.
pub open spec fn display_name(output: IpcOutput, laptop: bool) -> Seq<char> {
    if laptop {
        "Built-in display"@
    } else if output.model@ != "Unknown"@ {
        output.make@ + seq![' '] + output.model@
    } else {
        output.make@
    }
}

/// The name of an output for people.
pub fn make_display_name(output: &IpcOutput, laptop: bool) -> (s: String)
    ensures
        s@ == display_name(*output, laptop),
{
    if laptop {
        return "Built-in display".to_owned();
    }
    let mut name = output.make.clone();
    if !same(&output.model, "Unknown") {
        name.push(' ');
        name.append(&output.model);
        assert(name@ =~= output.make@ + seq![' '] + output.model@);
    }
    name
}

/// The whole scales that an output of this size supports.
pub open spec fn scales_of(width: int, height: int) -> Seq<u32> {
    if width >= 3840 && height >= 2160 {
        seq![1u32, 2, 3]
    } else if width >= 2560 && height >= 1440 {
        seq![1u32, 2]
    } else {
        seq![1u32]
    }
}

/// The whole scales that an output of this size supports.
pub fn supported_scales(width: i32, height: i32) -> (v: Vec<u32>)
    ensures
        v@ == scales_of(width as int, height as int),
{
    let mut v: Vec<u32> = Vec::new();
    v.push(1);
    if width >= 2560 && height >= 1440 {
        v.push(2);
    }
    if width >= 3840 && height >= 2160 {
        v.push(3);
    }
    assert(v@ =~= scales_of(width as int, height as int));
    v
}

/// The names of an output: connector, make, model and serial number.
#[derive(Debug, PartialEq, Eq)]
pub struct MonitorNames {
    pub connector: String,
    pub make: String,
    pub model: String,
    pub serial: String,
}

/// A mode, as it is reported.
#[derive(Debug, PartialEq, Eq)]
pub struct Mode {
    pub id: String,
    pub width: i32,
    pub height: i32,
    pub refresh_rate: F64,
    pub preferred_scale: u32,
    pub supported_scales: Vec<u32>,
    pub is_current: bool,
}

/// An output, as it is reported.
#[derive(Debug, PartialEq, Eq)]
pub struct Monitor {
    pub names: MonitorNames,
    pub modes: Vec<Mode>,
    pub display_name: String,
    pub is_builtin: bool,
}

/// A part of the desktop, as it is reported.
#[derive(Debug, PartialEq, Eq)]
pub struct LogicalMonitor {
    pub x: i32,
    pub y: i32,
    pub scale: F64,
    pub transform: u32,
    pub is_primary: bool,
    pub names: MonitorNames,
}

/// Whether `names` are those of an output; one without a serial number has the
/// connector in its place.
pub open spec fn names_of(output: IpcOutput, names: MonitorNames) -> bool {
    &&& names.connector == output.name
    &&& names.make == output.make
    &&& names.model == output.model
    &&& names.serial == (if output.serial@.len() == 0 {
        output.name
    } else {
        output.serial
    })
}

fn monitor_names(output: &IpcOutput) -> (n: MonitorNames)
    ensures
        names_of(*output, n),
{
    MonitorNames {
        connector: output.name.clone(),
        make: output.make.clone(),
        model: output.model.clone(),
        serial: if output.serial.as_str().is_empty() {
            output.name.clone()
        } else {
            output.serial.clone()
        },
    }
}

/// The id of a mode: its size and its refresh rate.
pub open spec fn mode_id(width: i32, height: i32, refresh: Seq<char>) -> Seq<char> {
    decimal(width as int) + seq!['x'] + decimal(height as int) + seq!['@'] + refresh
}

/// Whether `mode` reports a mode of an output.
pub open spec fn reports_mode(m: IpcOutputMode, current: u64, mode: Mode) -> bool {
    &&& mode.width == m.width as i32
    &&& mode.height == m.height as i32
    &&& mode.id@ == mode_id(mode.width, mode.height, m.refresh_text@)
    &&& mode.refresh_rate == m.refresh_rate
    &&& mode.preferred_scale == 1
    &&& mode.supported_scales@ == scales_of(mode.width as int, mode.height as int)
    &&& mode.is_current == (m.id == current)
}

fn report_mode(m: &IpcOutputMode, current: u64) -> (mode: Mode)
    ensures
        reports_mode(*m, current, mode),
{
    let width: i32 = #[verifier::truncate]
    (m.width as i32);
    let height: i32 = #[verifier::truncate]
    (m.height as i32);
    let mut id = signed_text(width as i64);
    id.push('x');
    id.append(signed_text(height as i64).as_str());
    id.push('@');
    id.append(&m.refresh_text);
    assert(id@ =~= mode_id(width, height, m.refresh_text@));
    Mode {
        id,
        width,
        height,
        refresh_rate: m.refresh_rate,
        preferred_scale: 1,
        supported_scales: supported_scales(width, height),
        is_current: m.id == current,
    }
}

/// Whether `monitor` reports an output.
pub open spec fn reports_output(output: IpcOutput, monitor: Monitor) -> bool {
    let laptop = laptop_connector(output.name@);
    &&& names_of(output, monitor.names)
    &&& monitor.is_builtin == laptop
    &&& monitor.display_name@ == display_name(output, laptop)
    &&& match output.logical {
        Some(l) => monitor.modes@.len() == l.modes@.len() && forall|i: int|
            0 <= i < l.modes@.len() ==> reports_mode(
                #[trigger] l.modes@[i],
                l.current_mode_id,
                monitor.modes@[i],
            ),
        None => monitor.modes@.len() == 0,
    }
}

fn report_output(output: &IpcOutput) -> (monitor: Monitor)
    ensures
        reports_output(*output, monitor),
{
    let laptop = is_laptop_panel(&output.name);
    let mut modes: Vec<Mode> = Vec::new();
    match &output.logical {
        Some(l) => {
            let mut i: usize = 0;
            while i < l.modes.len()
                invariant
                    i <= l.modes@.len(),
                    modes@.len() == i,
                    forall|k: int|
                        0 <= k < i ==> reports_mode(
                            #[trigger] l.modes@[k],
                            l.current_mode_id,
                            modes@[k],
                        ),
                decreases l.modes@.len() - i,
            {
                modes.push(report_mode(&l.modes[i], l.current_mode_id));
                i = i + 1;
            }
        },
        None => {},
    }
    Monitor {
        names: monitor_names(output),
        modes,
        display_name: make_display_name(output, laptop),
        is_builtin: laptop,
    }
}

/// Whether the output at `at` is the first that is on the desktop.
pub open spec fn is_first_logical(outputs: Seq<IpcOutput>, at: int) -> bool {
    &&& 0 <= at < outputs.len()
    &&& outputs[at].logical is Some
    &&& forall|i: int| 0 <= i < at ==> (#[trigger] outputs[i]).logical is None
}

/// Whether `monitor` reports where the output at `at` is on the desktop.
pub open spec fn reports_logical(outputs: Seq<IpcOutput>, at: int, monitor: LogicalMonitor) -> bool {
    &&& outputs[at].logical matches Some(l) && monitor.x == l.x && monitor.y == l.y && monitor.scale
        == l.scale && monitor.transform == l.transform
    &&& monitor.is_primary == is_first_logical(outputs, at)
    &&& names_of(outputs[at], monitor.names)
}

/// Whether a text comes before another in the order of code points, or is the same.
pub open spec fn text_le(a: Seq<char>, b: Seq<char>) -> bool
    decreases a.len(),
{
    if a.len() == 0 {
        true
    } else if b.len() == 0 {
        false
    } else if a[0] == b[0] {
        text_le(a.skip(1), b.skip(1))
    } else {
        a[0] < b[0]
    }
}

proof fn text_le_total(a: Seq<char>, b: Seq<char>)
    ensures
        text_le(a, b) || text_le(b, a),
    decreases a.len(),
{
    if a.len() > 0 && b.len() > 0 && a[0] == b[0] {
        text_le_total(a.skip(1), b.skip(1));
    }
}

proof fn text_le_transitive(a: Seq<char>, b: Seq<char>, c: Seq<char>)
    requires
        text_le(a, b),
        text_le(b, c),
    ensures
        text_le(a, c),
    decreases a.len(),
{
    if a.len() > 0 && b.len() > 0 && c.len() > 0 && a[0] == b[0] && b[0] == c[0] {
        text_le_transitive(a.skip(1), b.skip(1), c.skip(1));
    }
}

fn comes_before(a: &str, b: &str) -> (r: bool)
    ensures
        r == text_le(a@, b@),
{
    let x = chars_of(a);
    let y = chars_of(b);
    let mut i: usize = 0;
    assert(x@.skip(0) == x@ && y@.skip(0) == y@);
    while i < x.len() && i < y.len()
        invariant
            x@ == a@,
            y@ == b@,
            i <= x@.len(),
            i <= y@.len(),
            text_le(a@, b@) == text_le(x@.skip(i as int), y@.skip(i as int)),
        decreases x@.len() - i,
    {
        assert(x@.skip(i as int)[0] == x@[i as int]);
        assert(y@.skip(i as int)[0] == y@[i as int]);
        assert(x@.skip(i as int).skip(1) == x@.skip(i + 1));
        assert(y@.skip(i as int).skip(1) == y@.skip(i + 1));
        if x[i] != y[i] {
            return x[i] < y[i];
        }
        i = i + 1;
    }
    x.len() == i
}

/// Whether `order` lists some of the outputs, each once, by connector.
pub open spec fn is_ordered(outputs: Seq<IpcOutput>, order: Seq<int>) -> bool {
    &&& order.no_duplicates()
    &&& forall|k: int| 0 <= k < order.len() ==> 0 <= #[trigger] order[k] < outputs.len()
    &&& forall|j: int, k: int|
        0 <= j < k < order.len() ==> text_le(
            outputs[#[trigger] order[j]].name@,
            outputs[#[trigger] order[k]].name@,
        )
}

/// Whether `order` lists exactly the first `upto` outputs that are wanted.
pub open spec fn lists_outputs(
    outputs: Seq<IpcOutput>,
    order: Seq<int>,
    upto: int,
    only_logical: bool,
) -> bool {
    forall|i: int| #[trigger]
        order.contains(i) <==> (0 <= i < upto && (only_logical ==> outputs[i].logical is Some))
}

/// The positions of an order.
pub open spec fn positions(order: Seq<usize>) -> Seq<int> {
    order.map_values(|i: usize| i as int)
}

proof fn inserted_in_order(outputs: Seq<IpcOutput>, order: Seq<int>, at: int, i: int)
    requires
        is_ordered(outputs, order),
        0 <= at <= order.len(),
        0 <= i < outputs.len(),
        !order.contains(i),
        forall|k: int| 0 <= k < at ==> text_le(outputs[#[trigger] order[k]].name@, outputs[i].name@),
        at < order.len() ==> !text_le(outputs[order[at]].name@, outputs[i].name@),
    ensures
        is_ordered(outputs, order.insert(at, i)),
        forall|x: int| #[trigger]
            order.insert(at, i).contains(x) <==> order.contains(x) || x == i,
{
    let after = order.insert(at, i);
    assert forall|j: int, k: int| 0 <= j < k < after.len() implies text_le(
        outputs[#[trigger] after[j]].name@,
        outputs[#[trigger] after[k]].name@,
    ) by {
        if j < at {
            assert(after[j] == order[j]);
            if k > at {
                assert(after[k] == order[k - 1]);
            } else if k < at {
                assert(after[k] == order[k]);
            }
        } else if j > at {
            assert(after[j] == order[j - 1] && after[k] == order[k - 1]);
        } else {
            assert(after[k] == order[k - 1]);
            text_le_total(outputs[order[at]].name@, outputs[i].name@);
            if k - 1 > at {
                text_le_transitive(
                    outputs[i].name@,
                    outputs[order[at]].name@,
                    outputs[order[k - 1]].name@,
                );
            }
        }
    }
    assert forall|x: int| #[trigger] after.contains(x) <==> order.contains(x) || x == i by {
        if order.contains(x) {
            let k = choose|k: int| 0 <= k < order.len() && order[k] == x;
            assert(after[if k < at { k } else { k + 1 }] == x);
        }
        if x == i {
            assert(after[at] == x);
        }
        if after.contains(x) {
            let k = choose|k: int| 0 <= k < after.len() && after[k] == x;
            if k < at {
                assert(order[k] == x);
            } else if k > at {
                assert(order[k - 1] == x);
            }
        }
    }
    assert(after.no_duplicates()) by {
        assert forall|j: int, k: int| 0 <= j < after.len() && 0 <= k < after.len() && j != k implies after[j]
            != after[k] by {
            let a = if j < at { j } else { j - 1 };
            let b = if k < at { k } else { k - 1 };
            if j == at {
                assert(order.contains(order[b]));
            } else if k == at {
                assert(order.contains(order[a]));
            }
        }
    }
}

/// The outputs, or those on the desktop, ordered by connector.
fn order_outputs(outputs: &Vec<IpcOutput>, only_logical: bool) -> (order: Vec<usize>)
    ensures
        is_ordered(outputs@, positions(order@)),
        lists_outputs(outputs@, positions(order@), outputs@.len() as int, only_logical),
{
    let mut order: Vec<usize> = Vec::new();
    let mut i: usize = 0;
    while i < outputs.len()
        invariant
            i <= outputs@.len(),
            is_ordered(outputs@, positions(order@)),
            lists_outputs(outputs@, positions(order@), i as int, only_logical),
        decreases outputs@.len() - i,
    {
        if !only_logical || outputs[i].logical.is_some() {
            let ghost before = positions(order@);
            assert forall|k: int| 0 <= k < order@.len() implies (#[trigger] order@[k])
                < outputs@.len() by {
                assert(before[k] == order@[k]);
            }
            let mut at: usize = 0;
            while at < order.len() && comes_before(&outputs[order[at]].name, &outputs[i].name)
                invariant
                    i < outputs@.len(),
                    at <= order@.len(),
                    before == positions(order@),
                    is_ordered(outputs@, before),
                    forall|k: int| 0 <= k < order@.len() ==> (#[trigger] order@[k]) < outputs@.len(),
                    forall|k: int|
                        0 <= k < at ==> text_le(
                            outputs@[#[trigger] before[k]].name@,
                            outputs@[i as int].name@,
                        ),
                decreases order@.len() - at,
            {
                assert(before[at as int] == order@[at as int]);
                at = at + 1;
            }
            proof {
                assert(!before.contains(i as int));
                if at < before.len() {
                    assert(before[at as int] == order@[at as int]);
                }
                inserted_in_order(outputs@, before, at as int, i as int);
            }
            order.insert(at, i);
            assert(positions(order@) =~= before.insert(at as int, i as int));
        }
        i = i + 1;
    }
    order
}

/// The state of all outputs, ordered by connector: what there is, and what is on
/// the desktop. The first output on the desktop is the primary one.
pub fn get_current_state(outputs: &Vec<IpcOutput>) -> (r: (Vec<Monitor>, Vec<LogicalMonitor>))
    ensures
        exists|order: Seq<int>|
            {
                &&& is_ordered(outputs@, order)
                &&& #[trigger] lists_outputs(outputs@, order, outputs@.len() as int, false)
                &&& r.0@.len() == order.len()
                &&& forall|k: int|
                    0 <= k < order.len() ==> reports_output(
                        outputs@[order[k]],
                        #[trigger] r.0@[k],
                    )
            },
        exists|order: Seq<int>|
            {
                &&& is_ordered(outputs@, order)
                &&& #[trigger] lists_outputs(outputs@, order, outputs@.len() as int, true)
                &&& r.1@.len() == order.len()
                &&& forall|k: int|
                    0 <= k < order.len() ==> reports_logical(
                        outputs@,
                        order[k],
                        #[trigger] r.1@[k],
                    )
            },
{
    let order = order_outputs(outputs, false);
    let ghost listed = positions(order@);
    let mut monitors: Vec<Monitor> = Vec::new();
    let mut i: usize = 0;
    while i < order.len()
        invariant
            i <= order@.len(),
            listed == positions(order@),
            is_ordered(outputs@, listed),
            monitors@.len() == i,
            forall|k: int|
                0 <= k < i ==> reports_output(outputs@[listed[k]], #[trigger] monitors@[k]),
        decreases order@.len() - i,
    {
        assert(listed[i as int] == order@[i as int]);
        monitors.push(report_output(&outputs[order[i]]));
        i = i + 1;
    }

    let desktop = order_outputs(outputs, true);
    let ghost placed = positions(desktop@);
    let mut first: Option<usize> = None;
    let mut f: usize = 0;
    while f < outputs.len()
        invariant
            f <= outputs@.len(),
            match first {
                Some(p) => p < f && is_first_logical(outputs@, p as int),
                None => forall|k: int| 0 <= k < f ==> (#[trigger] outputs@[k]).logical is None,
            },
        decreases outputs@.len() - f,
    {
        if first.is_none() && outputs[f].logical.is_some() {
            first = Some(f);
        }
        f = f + 1;
    }
    let mut logical: Vec<LogicalMonitor> = Vec::new();
    let mut j: usize = 0;
    while j < desktop.len()
        invariant
            j <= desktop@.len(),
            placed == positions(desktop@),
            is_ordered(outputs@, placed),
            lists_outputs(outputs@, placed, outputs@.len() as int, true),
            match first {
                Some(p) => is_first_logical(outputs@, p as int),
                None => forall|k: int|
                    0 <= k < outputs@.len() ==> (#[trigger] outputs@[k]).logical is None,
            },
            logical@.len() == j,
            forall|k: int|
                0 <= k < j ==> reports_logical(outputs@, placed[k], #[trigger] logical@[k]),
        decreases desktop@.len() - j,
    {
        assert(placed[j as int] == desktop@[j as int]);
        assert(placed.contains(placed[j as int]));
        let at: usize = desktop[j];
        let output = &outputs[at];
        let is_primary = match first {
            Some(p) => p == at,
            None => false,
        };
        match &output.logical {
            Some(l) => {
                logical.push(
                    LogicalMonitor {
                        x: l.x,
                        y: l.y,
                        scale: l.scale,
                        transform: l.transform,
                        is_primary,
                        names: monitor_names(output),
                    },
                );
            },
            None => {},
        }
        j = j + 1;
    }
    assert(lists_outputs(outputs@, listed, outputs@.len() as int, false));
    (monitors, logical)
}

/// Exactly one output is primary, where any is on the desktop.
pub proof fn one_output_is_primary(outputs: Seq<IpcOutput>, order: Seq<int>, at: int)
    requires
        lists_outputs(outputs, order, outputs.len() as int, true),
        0 <= at < outputs.len(),
        outputs[at].logical is Some,
    ensures
        exists|p: int| #[trigger] is_first_logical(outputs, p) && order.contains(p),
        forall|p: int, q: int| #[trigger]
            is_first_logical(outputs, p) && #[trigger] is_first_logical(outputs, q) ==> p == q,
    decreases at,
{
    if exists|i: int| 0 <= i < at && (#[trigger] outputs[i]).logical is Some {
        let i = choose|i: int| 0 <= i < at && (#[trigger] outputs[i]).logical is Some;
        one_output_is_primary(outputs, order, i);
    } else {
        assert(is_first_logical(outputs, at));
        assert(order.contains(at));
    }
}

/// Whether a new monitor configuration is accepted: only checking one is, by
/// the method 0.
pub fn apply_monitors_config(method: u32) -> (r: Result<(), String>)
    ensures
        method == 0 ==> r is Ok,
        method != 0 ==> (r matches Err(message) && message@
            == "Applying monitor configuration is not supported"@),
{
    if method == 0 {
        Ok(())
    } else {
        Err("Applying monitor configuration is not supported".to_owned())
    }
}

/// What the window service asks the compositor.
#[derive(Clone, Copy, Debug, PartialEq, Eq, Structural)]
pub enum IntrospectToState {
    GetWindows,
}

/// What the window service tells of a window.
#[derive(Debug, PartialEq, Eq)]
pub struct WindowProperties {
    pub title: String,
    pub app_id: String,
}

/// What the compositor answers the window service.
#[derive(Debug)]
pub enum StateToIntrospect {
    Windows(HashMap<u64, WindowProperties>),
}

/// What the window service answers: the windows, or an error where the
/// compositor could not be asked or did not answer.
pub fn get_windows(asked: bool, answer: Option<StateToIntrospect>) -> (r: Result<
    HashMap<u64, WindowProperties>,
    String,
>)
    ensures
        match answer {
            Some(StateToIntrospect::Windows(windows)) => if asked {
                r == Ok::<HashMap<u64, WindowProperties>, String>(windows)
            } else {
                r matches Err(message) && message@ == "internal error"@
            },
            None => r matches Err(message) && message@ == "internal error"@,
        },
{
    if !asked {
        return Err("internal error".to_owned());
    }
    match answer {
        Some(StateToIntrospect::Windows(windows)) => Ok(windows),
        None => Err("internal error".to_owned()),
    }
}

/// A panel is built in exactly if its connector is eDP or LVDS, with or without a
/// number behind a dash.
pub proof fn built_in_panels_go_by_their_connector(rest: Seq<char>)
    ensures
        laptop_connector("eDP"@),
        laptop_connector("LVDS"@),
        laptop_connector("eDP"@ + seq!['-'] + rest),
        laptop_connector("LVDS"@ + seq!['-'] + rest),
        !laptop_connector("DP"@ + seq!['-'] + rest),
        !laptop_connector("HDMI"@ + seq!['-'] + rest),
{
    reveal_strlit("eDP");
    reveal_strlit("LVDS");
    reveal_strlit("DP");
    reveal_strlit("HDMI");
    assert(dash_at("eDP"@, 3));
    assert("eDP"@.take(3) =~= "eDP"@);
    assert(dash_at("LVDS"@, 4));
    assert("LVDS"@.take(4) =~= "LVDS"@);
    let e = "eDP"@ + seq!['-'] + rest;
    assert(dash_at(e, 3));
    assert(e.take(3) =~= "eDP"@);
    let l = "LVDS"@ + seq!['-'] + rest;
    assert(dash_at(l, 4));
    assert(l.take(4) =~= "LVDS"@);
    let d = "DP"@ + seq!['-'] + rest;
    assert(d[2] == '-');
    assert forall|at: int| #[trigger] dash_at(d, at) implies d.take(at) != "eDP"@ && d.take(at)
        != "LVDS"@ by {
        assert(at <= 2);
        assert(d.take(at).len() <= 2);
        assert("eDP"@.len() == 3 && "LVDS"@.len() == 4);
    }
    let h = "HDMI"@ + seq!['-'] + rest;
    assert(h[4] == '-');
    assert forall|at: int| #[trigger] dash_at(h, at) implies h.take(at) != "eDP"@ && h.take(at)
        != "LVDS"@ by {
        assert(at <= 4);
        assert(h[0] == 'H');
        if at > 0 {
            assert(h.take(at)[0] == 'H');
        }
        assert("eDP"@.len() == 3 && "LVDS"@.len() == 4);
        assert("eDP"@[0] == 'e' && "LVDS"@[0] == 'L');
    }
}

/// A display is called by its maker and its model, by its maker alone where the
/// model is unknown, and a built-in one by that.
pub proof fn displays_are_called_by_maker_and_model(output: IpcOutput)
    ensures
        display_name(output, true) == "Built-in display"@,
        output.model@ != "Unknown"@ ==> display_name(output, false) == output.make@.push(' ')
            + output.model@,
        output.model@ == "Unknown"@ ==> display_name(output, false) == output.make@,
{
    if output.model@ != "Unknown"@ {
        assert(display_name(output, false) =~= output.make@.push(' ') + output.model@);
    }
}

/// Scales go from one up, to two from 2560 by 1440 on and to three from 3840 by
/// 2160 on; a larger mode never has fewer.
pub proof fn larger_modes_have_more_scales(width: int, height: int, more_w: int, more_h: int)
    requires
        width <= more_w,
        height <= more_h,
    ensures
        1 <= scales_of(width, height).len() <= scales_of(more_w, more_h).len() <= 3,
        forall|i: int| 0 <= i < scales_of(width, height).len() ==> scales_of(width, height)[i] == i + 1,
        scales_of(width, height).len() >= 2 <==> width >= 2560 && height >= 1440,
        scales_of(width, height).len() == 3 <==> width >= 3840 && height >= 2160,
{
}

/// A monitor is reported under the names of its output, and under its connector
/// where it has no serial number.
pub proof fn monitors_have_the_names_of_their_output(output: IpcOutput, names: MonitorNames)
    requires
        names_of(output, names),
    ensures
        names.connector == output.name && names.make == output.make && names.model == output.model,
        output.serial@.len() > 0 ==> names.serial == output.serial,
        output.serial@.len() == 0 ==> names.serial == output.name,
{
}

/// A mode is reported with its size, its rate and the scales for it, as the
/// current one exactly if it is.
pub proof fn modes_are_reported_as_they_are(m: IpcOutputMode, current: u64, mode: Mode)
    requires
        reports_mode(m, current, mode),
        0 <= m.width <= i32::MAX,
        0 <= m.height <= i32::MAX,
    ensures
        mode.width == m.width && mode.height == m.height && mode.refresh_rate == m.refresh_rate,
        mode.is_current <==> m.id == current,
        mode.preferred_scale == 1,
        mode.supported_scales@.len() >= 1 && mode.supported_scales@[0] == 1,
        mode.id@ == decimal(m.width as int).push('x') + decimal(m.height as int).push('@')
            + m.refresh_text@,
{
    assert(mode.id@ =~= decimal(m.width as int).push('x') + decimal(m.height as int).push('@')
        + m.refresh_text@);
}

/// A monitor has all the modes of its output in their order, and is built in
/// exactly if its connector says so.
pub proof fn monitors_have_all_their_modes(output: IpcOutput, monitor: Monitor, i: int)
    requires
        reports_output(output, monitor),
    ensures
        output.logical is None ==> monitor.modes@.len() == 0,
        output.logical matches Some(l) ==> monitor.modes@.len() == l.modes@.len() && (0 <= i
            < l.modes@.len() ==> monitor.modes@[i].width == l.modes@[i].width as i32
            && monitor.modes@[i].height == l.modes@[i].height as i32 && (monitor.modes@[i].is_current
            <==> l.modes@[i].id == l.current_mode_id)),
        monitor.is_builtin <==> laptop_connector(output.name@),
        monitor.names.connector == output.name,
{
    if let Some(l) = output.logical {
        if 0 <= i < l.modes@.len() {
            assert(reports_mode(l.modes@[i], l.current_mode_id, monitor.modes@[i]));
        }
    }
}

/// A monitor that is on is where its output is, as large and as turned; it is the
/// primary one exactly if no output before it is on.
pub proof fn monitors_are_where_their_output_is(
    outputs: Seq<IpcOutput>,
    at: int,
    monitor: LogicalMonitor,
)
    requires
        0 <= at < outputs.len(),
        reports_logical(outputs, at, monitor),
    ensures
        outputs[at].logical matches Some(l) && monitor.x == l.x && monitor.y == l.y && monitor.scale
            == l.scale && monitor.transform == l.transform,
        monitor.is_primary <==> forall|i: int|
            0 <= i < at ==> (#[trigger] outputs[i]).logical is None,
        monitor.names.connector == outputs[at].name,
{
}

/// Texts are in the order of the dictionary: a text comes before what goes on
/// behind it, and else the first characters that differ decide.
pub proof fn texts_are_in_the_order_of_the_dictionary(
    common: Seq<char>,
    a: Seq<char>,
    b: Seq<char>,
)
    ensures
        text_le(common, common + a),
        a.len() > 0 && b.len() > 0 && a[0] < b[0] ==> text_le(common + a, common + b) && !text_le(
            common + b,
            common + a,
        ),
        a.len() > 0 ==> !text_le(common + a, common),
    decreases common.len(),
{
    if common.len() > 0 {
        texts_are_in_the_order_of_the_dictionary(common.skip(1), a, b);
        assert((common + a).skip(1) =~= common.skip(1) + a);
        assert((common + b).skip(1) =~= common.skip(1) + b);
    } else {
        assert(common + a =~= a);
        assert(common + b =~= b);
    }
}

/// Outputs are listed in the order of their names, each once.
pub proof fn outputs_are_listed_by_name(outputs: Seq<IpcOutput>, order: Seq<int>, j: int, k: int)
    requires
        is_ordered(outputs, order),
        0 <= j < k < order.len(),
    ensures
        order[j] != order[k],
        0 <= order[j] < outputs.len() && 0 <= order[k] < outputs.len(),
        text_le(outputs[order[j]].name@, outputs[order[k]].name@),
{
}

/// An output that is on is the first such if none before it is.
pub proof fn the_first_output_that_is_on_is_found(outputs: Seq<IpcOutput>, at: int)
    requires
        0 <= at < outputs.len(),
        outputs[at].logical is Some,
        forall|i: int| 0 <= i < at ==> (#[trigger] outputs[i]).logical is None,
    ensures
        is_first_logical(outputs, at),
{
}

} // verus!
