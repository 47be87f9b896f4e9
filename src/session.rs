//! The session of the command executor: the pinned device, the last command
//! for replay, and the decisions taken on each result of the bridge tool.
use vstd::prelude::*;
use vstd::string::*;
use crate::device::{
    Device, device_entries, ip_from_probe, ip_of, listing_entries, opt_view, or_undefined, os_from_probe,
    os_of, pairs, render_table, rows_view, table_of,
};
use crate::text::{find_from, strs, trim, trim_of};

verus! {

/// What one run of the bridge tool gave back.
pub enum ToolOutput {
    /// The tool exited successfully with this standard output.
    Success(String),
    /// The tool exited with a failure status and this standard error.
    Failure(String),
    /// The tool could not be started.
    LaunchFailed(String),
}

/// The errors that reach the caller of the executor.
pub enum BadbError {
    /// The tool failed; its diagnostic text, verbatim.
    ExternalTool(String),
    /// A device was needed and none is attached.
    NoDevicesFound,
    /// The input stream ended while a device was being chosen.
    InputClosed,
    /// The tool could not be started.
    LaunchFailed(String),
}

/// What the executor does after one run of the tool.
pub enum Reaction {
    /// The command is over with this result.
    Finished(Result<String, BadbError>),
    /// Several devices are attached: one has to be chosen before replaying.
    ChooseDevice,
}

/// The outcome of one answer at the device prompt.
pub enum Selection {
    /// The device with this serial is now pinned.
    Chosen(String),
    /// The answer was no valid choice: ask again.
    Reprompt,
    /// Choosing cannot go on.
    Failed(BadbError),
}

/// The text by which the tool reports that more than one device is attached.
pub open spec fn ambiguity_marker() -> Seq<char> {
    "adb: more than one device/emulator"@
}

/// The text of an error, as it is shown to the user.
pub open spec fn message_of(e: BadbError) -> Seq<char> {
    match e {
        BadbError::ExternalTool(s) => s@,
        BadbError::NoDevicesFound => "No devices found"@,
        BadbError::InputClosed => "Input closed"@,
        BadbError::LaunchFailed(s) => s@,
    }
}

impl BadbError {
    pub fn message(&self) -> (r: String)
        ensures
            r@ == message_of(*self),
    {
        match self {
            BadbError::ExternalTool(s) => s.clone(),
            BadbError::NoDevicesFound => String::from_str("No devices found"),
            BadbError::InputClosed => String::from_str("Input closed"),
            BadbError::LaunchFailed(s) => s.clone(),
        }
    }
}

/// What the executor decides on `out`; `retried` tells whether the command
/// was already replayed once after a device was chosen.
pub open spec fn reacts(out: ToolOutput, retried: bool, r: Reaction) -> bool {
    match out {
        ToolOutput::Success(s) => match r {
            Reaction::Finished(Ok(x)) => x@ == s@,
            _ => false,
        },
        ToolOutput::Failure(e) => if !retried && find_from(e@, ambiguity_marker(), 0) >= 0 {
            r is ChooseDevice
        } else {
            match r {
                Reaction::Finished(Err(BadbError::ExternalTool(x))) => x@ == e@,
                _ => false,
            }
        },
        ToolOutput::LaunchFailed(m) => match r {
            Reaction::Finished(Err(BadbError::LaunchFailed(x))) => x@ == m@,
            _ => false,
        },
    }
}

/// The state of a session: the pinned device and the last command's arguments.
pub struct SessionView {
    pub pinned: Option<Seq<char>>,
    pub last_args: Seq<Seq<char>>,
}

/// The arguments handed to the tool for `args`: the device selector first when
/// a device is pinned.
pub open spec fn command_of(pinned: Option<Seq<char>>, args: Seq<Seq<char>>) -> Seq<Seq<char>> {
    match pinned {
        Some(id) => seq!["-s"@, id] + args,
        None => args,
    }
}

/// The session after `args` is run: they are kept for a replay.
pub open spec fn exec_step(s: SessionView, args: Seq<Seq<char>>) -> SessionView {
    SessionView { pinned: s.pinned, last_args: args }
}

/// The command that a replay of the last command runs.
pub open spec fn replay_of(s: SessionView) -> Seq<Seq<char>> {
    command_of(s.pinned, s.last_args)
}

/// An ASCII decimal digit.
pub open spec fn is_digit(c: char) -> bool {
    48 <= (c as u32) && (c as u32) <= 57
}

/// The number that a string of decimal digits writes.
pub open spec fn digits_value(d: Seq<char>) -> nat
    decreases d.len(),
{
    if d.len() == 0 {
        0
    } else {
        digits_value(d.drop_last()) * 10 + ((d.last() as u32) - 48) as nat
    }
}

/// `t` without one leading plus sign.
pub open spec fn unsigned_digits(t: Seq<char>) -> Seq<char> {
    if t.len() > 0 && t[0] == '+' {
        t.skip(1)
    } else {
        t
    }
}

/// The unsigned number that `input` writes once trimmed, if it writes one.
pub open spec fn choice_value(input: Seq<char>) -> Option<nat> {
    let d = unsigned_digits(trim_of(input));
    if d.len() > 0 && forall|i: int| 0 <= i < d.len() ==> is_digit(#[trigger] d[i]) {
        Some(digits_value(d))
    } else {
        None
    }
}

/// The 0-based index that `input` selects among `n` candidates numbered from 1.
pub open spec fn chosen_index(input: Seq<char>, n: nat) -> Option<nat> {
    match choice_value(input) {
        Some(v) => if 1 <= v && v <= n {
            Some((v - 1) as nat)
        } else {
            None
        },
        None => None,
    }
}

/// The serials of the candidates.
pub open spec fn serials(ds: Seq<Device>) -> Seq<Seq<char>> {
    ds.map_values(|d: Device| d.serial@)
}

/// The session after `input` was answered at the prompt listing `ids`.
pub open spec fn select_step(s: SessionView, ids: Seq<Seq<char>>, input: Seq<char>) -> SessionView {
    match chosen_index(input, ids.len()) {
        Some(k) => SessionView { pinned: Some(ids[k as int]), last_args: s.last_args },
        None => s,
    }
}

/// What answering `input` at the prompt listing `ids` yields.
pub open spec fn selects(ids: Seq<Seq<char>>, input: Option<Seq<char>>, r: Selection) -> bool {
    if ids.len() == 0 {
        r matches Selection::Failed(BadbError::NoDevicesFound)
    } else {
        match input {
            None => r matches Selection::Failed(BadbError::InputClosed),
            Some(line) => match chosen_index(line, ids.len()) {
                Some(k) => match r {
                    Selection::Chosen(id) => id@ == ids[k as int],
                    _ => false,
                },
                None => r is Reprompt,
            },
        }
    }
}

/// The index that `input` selects among `count` candidates, read as
/// `chosen_index` says.
pub fn parse_choice(input: &str, count: usize) -> (r: Option<usize>)
    ensures
        match r {
            Some(i) => chosen_index(input@, count as nat) == Some(i as nat),
            None => chosen_index(input@, count as nat) is None,
        },
{
    let t = trim(input);
    let ts = t.as_str();
    let n = ts.unicode_len();
    let mut start: usize = 0;
    if n > 0 && ts.get_char(0) == '+' {
        start = 1;
    }
    let ghost d = unsigned_digits(t@);
    assert(d =~= t@.skip(start as int));
    if start >= n {
        assert(d.len() == 0);
        return None;
    }
    let mut v: usize = 0;
    let mut big = false;
    let mut i: usize = start;
    while i < n
        invariant
            start <= i <= n,
            n == t@.len(),
            ts@ == t@,
            d == t@.skip(start as int),
            d == unsigned_digits(trim_of(input@)),
            forall|j: int| 0 <= j < i - start ==> is_digit(#[trigger] d[j]),
            big ==> digits_value(d.take(i - start)) > count,
            !big ==> v == digits_value(d.take(i - start)),
            v <= count,
        decreases n - i,
    {
        let c = ts.get_char(i);
        let u = c as u32;
        if u < 48 || u > 57 {
            assert(!is_digit(d[i - start]));
            assert(choice_value(input@) is None);
            return None;
        }
        let dg = (u - 48) as usize;
        let ghost k = i - start;
        assert(d.take(k + 1).drop_last() =~= d.take(k));
        assert(digits_value(d.take(k + 1)) == digits_value(d.take(k)) * 10 + dg);
        if big {
            let ghost x = digits_value(d.take(k));
            assert(x * 10 + dg >= x) by (nonlinear_arith);
        } else if v <= count / 10 && dg <= count - v * 10 {
            assert(v * 10 <= count) by (nonlinear_arith)
                requires
                    v <= count / 10,
            ;
            v = v * 10 + dg;
        } else {
            if v > count / 10 {
                assert(v * 10 > count) by (nonlinear_arith)
                    requires
                        v > count / 10,
                ;
            }
            big = true;
        }
        i = i + 1;
    }
    assert(d.take(n - start) =~= d);
    if big || v == 0 {
        None
    } else {
        Some(v - 1)
    }
}

/// A copy of the strings.
fn copy_strings(v: &Vec<String>) -> (r: Vec<String>)
    ensures
        strs(r@) == strs(v@),
{
    let mut out: Vec<String> = Vec::new();
    let mut i: usize = 0;
    while i < v.len()
        invariant
            i <= v@.len(),
            strs(out@) =~= strs(v@).take(i as int),
        decreases v@.len() - i,
    {
        let ghost prev = out@;
        out.push(v[i].clone());
        assert(out@ == prev.push(v@[i as int]));
        assert(strs(out@) =~= strs(prev).push(v@[i as int]@));
        assert(strs(out@) =~= strs(v@).take(i + 1));
        i = i + 1;
    }
    assert(strs(v@).take(i as int) =~= strs(v@));
    out
}

/// The strings of `a` followed by copies of those of `b`.
fn append_strings(a: Vec<String>, b: &Vec<String>) -> (r: Vec<String>)
    ensures
        strs(r@) == strs(a@) + strs(b@),
{
    let mut out = a;
    let ghost start = strs(out@);
    let mut i: usize = 0;
    while i < b.len()
        invariant
            i <= b@.len(),
            strs(out@) =~= start + strs(b@).take(i as int),
        decreases b@.len() - i,
    {
        let ghost prev = out@;
        out.push(b[i].clone());
        assert(out@ == prev.push(b@[i as int]));
        assert(strs(out@) =~= strs(prev).push(b@[i as int]@));
        assert(strs(out@) =~= start + strs(b@).take(i + 1));
        i = i + 1;
    }
    assert(strs(b@).take(i as int) =~= strs(b@));
    out
}

/// The package listing followed by the filter tokens `extra`.
pub open spec fn package_args(extra: Seq<Seq<char>>) -> Seq<Seq<char>> {
    seq!["shell"@, "pm"@, "list"@, "packages"@] + extra
}

pub open spec fn table_header() -> Seq<Seq<char>> {
    seq!["serial"@, "model"@, "os_version"@, "ip"@]
}

pub open spec fn device_row(d: Device) -> Seq<Seq<char>> {
    seq![d.serial@, d.model@, d.os_version@, d.ip@]
}

/// The header, then one row for each device.
pub open spec fn device_rows(ds: Seq<Device>) -> Seq<Seq<Seq<char>>> {
    seq![table_header()] + ds.map_values(|d: Device| device_row(d))
}

/// What the device command gives for `ds`: no device is an error, else their table.
pub open spec fn shows_devices(ds: Seq<Device>, r: Result<String, BadbError>) -> bool {
    if ds.len() == 0 {
        r matches Err(BadbError::NoDevicesFound)
    } else {
        match r {
            Ok(t) => t@ == table_of(device_rows(ds)),
            _ => false,
        }
    }
}

/// After a command, answering the device prompt with the number `k` of one
/// of the listed candidates makes the replay name that candidate's serial,
/// followed by the command's own arguments unchanged.
pub proof fn lemma_replay_targets_chosen_device(
    s: SessionView,
    args: Seq<Seq<char>>,
    ids: Seq<Seq<char>>,
    input: Seq<char>,
    k: nat,
)
    requires
        1 <= k <= ids.len(),
        choice_value(input) == Some(k),
    ensures
        replay_of(select_step(exec_step(s, args), ids, input)) == seq!["-s"@, ids[k - 1]] + args,
{
}

/// While a device is pinned, every command names it ahead of its own
/// arguments, and starting a command keeps the pin.
pub proof fn lemma_pinned_session_scopes_commands(s: SessionView, args: Seq<Seq<char>>, id: Seq<char>)
    requires
        s.pinned == Some(id),
    ensures
        command_of(s.pinned, args) == seq!["-s"@, id] + args,
        exec_step(s, args).pinned == Some(id),
{
}

/// A session of the executor.
pub struct Badb {
    /// The pinned device: every command is scoped to it.
    pub serial: Option<String>,
    args: Vec<String>,
}

impl View for Badb {
    type V = SessionView;

    closed spec fn view(&self) -> SessionView {
        SessionView { pinned: opt_view(self.serial), last_args: strs(self.args@) }
    }
}

impl Badb {
    /// A session with no device pinned and no command run.
    pub fn new() -> (r: Badb)
        ensures
            r@.pinned is None,
            r@.last_args == Seq::<Seq<char>>::empty(),
    {
        let r = Badb { serial: None, args: Vec::new() };
        assert(strs(r.args@) =~= Seq::<Seq<char>>::empty());
        r
    }

    /// A session that starts with `serial` pinned.
    pub fn with_serial(serial: String) -> (r: Badb)
        ensures
            r@.pinned == Some(serial@),
            r@.last_args == Seq::<Seq<char>>::empty(),
    {
        let r = Badb { serial: Some(serial), args: Vec::new() };
        assert(strs(r.args@) =~= Seq::<Seq<char>>::empty());
        r
    }

    /// The arguments that the tool gets for `args` in this session.
    pub fn command_line(&self, args: &Vec<String>) -> (r: Vec<String>)
        ensures
            strs(r@) == command_of(self@.pinned, strs(args@)),
    {
        let mut head: Vec<String> = Vec::new();
        match &self.serial {
            Some(id) => {
                head.push(String::from_str("-s"));
                head.push(id.clone());
                assert(strs(head@) =~= seq!["-s"@, id@]);
            },
            None => {
                assert(strs(head@) =~= Seq::<Seq<char>>::empty());
            },
        }
        let r = append_strings(head, args);
        assert(strs(r@) =~= command_of(self@.pinned, strs(args@)));
        r
    }

    /// Starts the command `args`: it is kept for a replay, and the arguments
    /// that the tool gets are returned.
    pub fn exec(&mut self, args: &Vec<String>) -> (r: Vec<String>)
        ensures
            final(self)@ == exec_step(old(self)@, strs(args@)),
            strs(r@) == command_of(old(self)@.pinned, strs(args@)),
    {
        self.args = copy_strings(args);
        self.command_line(args)
    }

    /// Starts the command made of the single token `cmd`.
    pub fn exec_cmd(&mut self, cmd: &str) -> (r: Vec<String>)
        ensures
            final(self)@ == exec_step(old(self)@, seq![cmd@]),
            strs(r@) == command_of(old(self)@.pinned, seq![cmd@]),
    {
        let mut args: Vec<String> = Vec::new();
        args.push(String::from_str(cmd));
        assert(strs(args@) =~= seq![cmd@]);
        self.exec(&args)
    }

    /// The command run again once a device was chosen.
    pub fn replay(&self) -> (r: Vec<String>)
        ensures
            strs(r@) == replay_of(self@),
    {
        self.command_line(&self.args)
    }

    /// The arguments of the long device listing in this session.
    pub fn list_devices_command(&self) -> (r: Vec<String>)
        ensures
            strs(r@) == command_of(self@.pinned, seq!["devices"@, "-l"@]),
    {
        let mut args: Vec<String> = Vec::new();
        args.push(String::from_str("devices"));
        args.push(String::from_str("-l"));
        assert(strs(args@) =~= seq!["devices"@, "-l"@]);
        self.command_line(&args)
    }

    /// The arguments of the probe that reads the OS version of `serial`: they
    /// name that device, whatever is pinned.
    pub fn os_probe_command(serial: &str) -> (r: Vec<String>)
        ensures
            strs(r@) == seq!["-s"@, serial@, "shell"@, "getprop"@, "ro.build.version.release"@],
    {
        let mut args: Vec<String> = Vec::new();
        args.push(String::from_str("-s"));
        args.push(String::from_str(serial));
        args.push(String::from_str("shell"));
        args.push(String::from_str("getprop"));
        args.push(String::from_str("ro.build.version.release"));
        assert(strs(args@) =~= seq!["-s"@, serial@, "shell"@, "getprop"@, "ro.build.version.release"@]);
        args
    }

    /// The arguments of the probe that reads the route table of `serial`: they
    /// name that device, whatever is pinned.
    pub fn ip_probe_command(serial: &str) -> (r: Vec<String>)
        ensures
            strs(r@) == seq!["-s"@, serial@, "shell"@, "ip"@, "route"@],
    {
        let mut args: Vec<String> = Vec::new();
        args.push(String::from_str("-s"));
        args.push(String::from_str(serial));
        args.push(String::from_str("shell"));
        args.push(String::from_str("ip"));
        args.push(String::from_str("route"));
        assert(strs(args@) =~= seq!["-s"@, serial@, "shell"@, "ip"@, "route"@]);
        args
    }

    /// Starts the package listing, with the filter tokens `args` after it.
    pub fn list_packages(&mut self, args: Option<&Vec<String>>) -> (r: Vec<String>)
        ensures
            final(self)@ == exec_step(old(self)@, package_args(match args {
                Some(a) => strs(a@),
                None => Seq::empty(),
            })),
            strs(r@) == command_of(old(self)@.pinned, package_args(match args {
                Some(a) => strs(a@),
                None => Seq::empty(),
            })),
    {
        let mut base: Vec<String> = Vec::new();
        base.push(String::from_str("shell"));
        base.push(String::from_str("pm"));
        base.push(String::from_str("list"));
        base.push(String::from_str("packages"));
        assert(strs(base@) =~= package_args(Seq::empty()));
        let full = match args {
            Some(a) => append_strings(base, a),
            None => base,
        };
        self.exec(&full)
    }

    /// The device table shown for `listed`, the outcome of a device listing:
    /// a failed listing, or one with no device, is an error.
    pub fn devices(listed: &Result<Vec<Device>, BadbError>) -> (r: Result<String, BadbError>)
        ensures
            match listed {
                Ok(records) => shows_devices(records@, r),
                Err(_) => r matches Err(BadbError::NoDevicesFound),
            },
    {
        let records = match listed {
            Ok(records) => records,
            Err(_) => return Err(BadbError::NoDevicesFound),
        };
        if records.len() == 0 {
            return Err(BadbError::NoDevicesFound);
        }
        let mut rows: Vec<Vec<String>> = Vec::new();
        let mut header: Vec<String> = Vec::new();
        header.push(String::from_str("serial"));
        header.push(String::from_str("model"));
        header.push(String::from_str("os_version"));
        header.push(String::from_str("ip"));
        assert(strs(header@) =~= table_header());
        rows.push(header);
        let mut i: usize = 0;
        while i < records.len()
            invariant
                i <= records@.len(),
                rows_view(rows@) =~= device_rows(records@.take(i as int)),
            decreases records@.len() - i,
        {
            let d = &records[i];
            let mut row: Vec<String> = Vec::new();
            row.push(d.serial.clone());
            row.push(d.model.clone());
            row.push(d.os_version.clone());
            row.push(d.ip.clone());
            assert(strs(row@) =~= device_row(*d));
            let ghost prev = rows@;
            rows.push(row);
            assert(rows@ == prev.push(row));
            assert(records@.take(i + 1) =~= records@.take(i as int).push(*d));
            assert(rows_view(rows@) =~= rows_view(prev).push(strs(row@)));
            assert(device_rows(records@.take(i + 1)) =~= device_rows(records@.take(i as int)).push(
                device_row(*d),
            ));
            assert(rows_view(rows@) =~= device_rows(records@.take(i + 1)));
            i = i + 1;
        }
        assert(records@.take(i as int) =~= records@);
        Ok(render_table(&rows))
    }

    /// The records of the devices in `listing`, the answer to a long device
    /// listing, each with what its version probe and its route probe answered.
    pub fn list_devices(listing: &str, os_probes: &Vec<ToolOutput>, ip_probes: &Vec<ToolOutput>) -> (r: Vec<Device>)
        requires
            os_probes@.len() == listing_entries(listing@).len(),
            ip_probes@.len() == listing_entries(listing@).len(),
        ensures
            r@.len() == listing_entries(listing@).len(),
            forall|i: int| 0 <= i < r@.len() ==> {
                &&& (#[trigger] r@[i]).serial@ == listing_entries(listing@)[i].0
                &&& r@[i].model@ == listing_entries(listing@)[i].1
                &&& r@[i].os_version@ == or_undefined(os_of(os_probes@[i]))
                &&& r@[i].ip@ == or_undefined(ip_of(ip_probes@[i]))
            },
    {
        let entries = device_entries(listing);
        let ghost es = listing_entries(listing@);
        let mut out: Vec<Device> = Vec::new();
        let mut i: usize = 0;
        while i < entries.len()
            invariant
                i <= entries@.len(),
                pairs(entries@) == es,
                es == listing_entries(listing@),
                os_probes@.len() == es.len(),
                ip_probes@.len() == es.len(),
                out@.len() == i,
                forall|j: int| 0 <= j < i ==> {
                    &&& (#[trigger] out@[j]).serial@ == es[j].0
                    &&& out@[j].model@ == es[j].1
                    &&& out@[j].os_version@ == or_undefined(os_of(os_probes@[j]))
                    &&& out@[j].ip@ == or_undefined(ip_of(ip_probes@[j]))
                },
            decreases entries@.len() - i,
        {
            assert(pairs(entries@)[i as int] == (entries@[i as int].0@, entries@[i as int].1@));
            let serial = entries[i].0.clone();
            let model = entries[i].1.clone();
            let os = os_from_probe(&os_probes[i]);
            let ip = ip_from_probe(&ip_probes[i]);
            out.push(Device::new(serial, model, os, ip));
            i = i + 1;
        }
        out
    }

    /// What to do on `out`, the tool's answer to the current command.
    pub fn handle_output(out: &ToolOutput, retried: bool) -> (r: Reaction)
        ensures
            reacts(*out, retried, r),
    {
        match out {
            ToolOutput::Success(s) => Reaction::Finished(Ok(s.clone())),
            ToolOutput::Failure(e) => {
                if !retried && crate::text::contains_text(e.as_str(), "adb: more than one device/emulator") {
                    Reaction::ChooseDevice
                } else {
                    Reaction::Finished(Err(BadbError::ExternalTool(e.clone())))
                }
            },
            ToolOutput::LaunchFailed(m) => Reaction::Finished(Err(BadbError::LaunchFailed(m.clone()))),
        }
    }

    /// Takes `input`, one line answered at the prompt listing `devices`
    /// (`None` once input has ended), and pins the device it selects.
    pub fn select_device(&mut self, devices: &Vec<Device>, input: Option<&str>) -> (r: Selection)
        ensures
            selects(serials(devices@), match input { Some(t) => Some(t@), None => None }, r),
            final(self)@ == match input {
                Some(t) => if devices@.len() > 0 {
                    select_step(old(self)@, serials(devices@), t@)
                } else {
                    old(self)@
                },
                None => old(self)@,
            },
    {
        if devices.len() == 0 {
            return Selection::Failed(BadbError::NoDevicesFound);
        }
        match input {
            None => Selection::Failed(BadbError::InputClosed),
            Some(line) => match parse_choice(line, devices.len()) {
                Some(k) => {
                    let id = devices[k].serial.clone();
                    self.serial = Some(id.clone());
                    Selection::Chosen(id)
                },
                None => Selection::Reprompt,
            },
        }
    }
}

} // verus!
