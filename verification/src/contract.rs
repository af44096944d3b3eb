//! The wire contract of every interface the daemon serves at
//! `/org/lyraos/Vega1`: its methods and signals with their D-Bus type
//! signatures, and their introspection XML.
use vstd::prelude::*;

verus! {

/// Direction of a method argument.
#[derive(Debug, Clone, Copy, PartialEq, Eq)]
pub enum ArgDirection {
    In,
    Out,
}

/// Whether a member is a method or a signal.
#[derive(Debug, Clone, Copy, PartialEq, Eq)]
pub enum MemberKind {
    Method,
    Signal,
}

/// One argument of a member: its direction and D-Bus type signature.
/// Signal arguments are always `Out`.
#[derive(Debug)]
pub struct ArgSpec {
    pub direction: ArgDirection,
    pub signature: String,
}

/// A method or signal with its arguments, in order.
#[derive(Debug)]
pub struct MemberSpec {
    pub kind: MemberKind,
    pub name: String,
    pub args: Vec<ArgSpec>,
}

/// An interface and its members, in order.
#[derive(Debug)]
pub struct InterfaceSpec {
    pub name: String,
    pub members: Vec<MemberSpec>,
}

/// An argument as a value.
pub struct ArgView {
    pub direction: ArgDirection,
    pub signature: Seq<char>,
}

/// A member as a value.
pub struct MemberView {
    pub kind: MemberKind,
    pub name: Seq<char>,
    pub args: Seq<ArgView>,
}

/// An interface as a value.
pub struct InterfaceView {
    pub name: Seq<char>,
    pub members: Seq<MemberView>,
}

impl View for ArgSpec {
    type V = ArgView;

    open spec fn view(&self) -> ArgView {
        ArgView { direction: self.direction, signature: self.signature@ }
    }
}

impl View for MemberSpec {
    type V = MemberView;

    open spec fn view(&self) -> MemberView {
        MemberView {
            kind: self.kind,
            name: self.name@,
            args: self.args@.map_values(|a: ArgSpec| a@),
        }
    }
}

impl View for InterfaceSpec {
    type V = InterfaceView;

    open spec fn view(&self) -> InterfaceView {
        InterfaceView { name: self.name@, members: self.members@.map_values(|m: MemberSpec| m@) }
    }
}

/// An input argument of type `signature`.
pub open spec fn in_arg(signature: Seq<char>) -> ArgView {
    ArgView { direction: ArgDirection::In, signature }
}

/// An output argument (or signal argument) of type `signature`.
pub open spec fn out_arg(signature: Seq<char>) -> ArgView {
    ArgView { direction: ArgDirection::Out, signature }
}

/// A method.
pub open spec fn method_member(name: Seq<char>, args: Seq<ArgView>) -> MemberView {
    MemberView { kind: MemberKind::Method, name, args }
}

/// A signal.
pub open spec fn signal_member(name: Seq<char>, args: Seq<ArgView>) -> MemberView {
    MemberView { kind: MemberKind::Signal, name, args }
}

fn arg(direction: ArgDirection, signature: &str) -> (r: ArgSpec)
    ensures
        r@ == (ArgView { direction, signature: signature@ }),
{
    ArgSpec { direction, signature: signature.to_owned() }
}

fn member(kind: MemberKind, name: &str, args: Vec<ArgSpec>) -> (r: MemberSpec)
    ensures
        r@ == (MemberView { kind, name: name@, args: args@.map_values(|a: ArgSpec| a@) }),
{
    MemberSpec { kind, name: name.to_owned(), args }
}

fn interface(name: &str, members: Vec<MemberSpec>) -> (r: InterfaceSpec)
    ensures
        r@ == (InterfaceView { name: name@, members: members@.map_values(|m: MemberSpec| m@) }),
{
    InterfaceSpec { name: name.to_owned(), members }
}

/// Element name of a member in introspection XML.
pub open spec fn member_tag(kind: MemberKind) -> Seq<char> {
    match kind {
        MemberKind::Method => "method"@,
        MemberKind::Signal => "signal"@,
    }
}

/// Value of an argument's `direction` attribute.
pub open spec fn direction_text(direction: ArgDirection) -> Seq<char> {
    match direction {
        ArgDirection::In => "in"@,
        ArgDirection::Out => "out"@,
    }
}

/// Introspection XML of one argument: methods state the direction,
/// signals (whose arguments are all outputs) do not.
pub open spec fn arg_xml(kind: MemberKind, a: ArgView) -> Seq<char> {
    match kind {
        MemberKind::Method => "      <arg type=\""@ + a.signature + "\" direction=\""@ + direction_text(
            a.direction,
        ) + "\"/>\n"@,
        MemberKind::Signal => "      <arg type=\""@ + a.signature + "\"/>\n"@,
    }
}

/// Introspection XML of a list of arguments.
pub open spec fn args_xml(kind: MemberKind, args: Seq<ArgView>) -> Seq<char>
    decreases args.len(),
{
    if args.len() == 0 {
        Seq::empty()
    } else {
        args_xml(kind, args.drop_last()) + arg_xml(kind, args.last())
    }
}

/// Introspection XML of one member.
pub open spec fn member_xml(m: MemberView) -> Seq<char> {
    "    <"@ + member_tag(m.kind) + " name=\""@ + m.name + "\">\n"@ + args_xml(m.kind, m.args)
        + "    </"@ + member_tag(m.kind) + ">\n"@
}

/// Introspection XML of a list of members.
pub open spec fn members_xml(members: Seq<MemberView>) -> Seq<char>
    decreases members.len(),
{
    if members.len() == 0 {
        Seq::empty()
    } else {
        members_xml(members.drop_last()) + member_xml(members.last())
    }
}

/// Introspection XML of an interface, as the daemon's `Introspect` answers it.
pub open spec fn interface_xml(i: InterfaceView) -> Seq<char> {
    "<node>\n  <interface name=\""@ + i.name + "\">\n"@ + members_xml(i.members)
        + "  </interface>\n</node>\n"@
}

fn append_tag(out: &mut String, kind: MemberKind)
    ensures
        final(out)@ == old(out)@ + member_tag(kind),
{
    match kind {
        MemberKind::Method => out.append("method"),
        MemberKind::Signal => out.append("signal"),
    }
}

fn append_arg(out: &mut String, kind: MemberKind, a: &ArgSpec)
    ensures
        final(out)@ == old(out)@ + arg_xml(kind, a@),
{
    let ghost start = out@;
    out.append("      <arg type=\"");
    out.append(a.signature.as_str());
    match kind {
        MemberKind::Method => {
            out.append("\" direction=\"");
            match a.direction {
                ArgDirection::In => out.append("in"),
                ArgDirection::Out => out.append("out"),
            }
            out.append("\"/>\n");
        },
        MemberKind::Signal => {
            out.append("\"/>\n");
        },
    }
    assert(out@ =~= start + arg_xml(kind, a@));
}

fn append_member(out: &mut String, m: &MemberSpec)
    ensures
        final(out)@ == old(out)@ + member_xml(m@),
{
    let ghost start = out@;
    out.append("    <");
    append_tag(out, m.kind);
    out.append(" name=\"");
    out.append(m.name.as_str());
    out.append("\">\n");
    let ghost head = out@;
    let ghost args = m@.args;
    let n = m.args.len();
    let mut i: usize = 0;
    while i < n
        invariant
            n == m.args@.len(),
            args == m.args@.map_values(|a: ArgSpec| a@),
            i <= n,
            out@ == head + args_xml(m.kind, args.take(i as int)),
        decreases n - i,
    {
        append_arg(out, m.kind, &m.args[i]);
        assert(args.take(i + 1).drop_last() =~= args.take(i as int));
        i = i + 1;
    }
    assert(args.take(n as int) =~= args);
    out.append("    </");
    append_tag(out, m.kind);
    out.append(">\n");
    assert(out@ =~= start + member_xml(m@));
}

impl InterfaceSpec {
    /// The interface's introspection XML: a `node` holding the `interface`
    /// element with each member's element and arguments, in order.
    pub fn introspection_xml(&self) -> (r: String)
        ensures
            r@ == interface_xml(self@),
    {
        let mut out = String::new();
        out.append("<node>\n  <interface name=\"");
        out.append(self.name.as_str());
        out.append("\">\n");
        let ghost head = out@;
        let ghost members = self@.members;
        let n = self.members.len();
        let mut i: usize = 0;
        while i < n
            invariant
                n == self.members@.len(),
                members == self.members@.map_values(|m: MemberSpec| m@),
                i <= n,
                out@ == head + members_xml(members.take(i as int)),
            decreases n - i,
        {
            append_member(&mut out, &self.members[i]);
            assert(members.take(i + 1).drop_last() =~= members.take(i as int));
            i = i + 1;
        }
        assert(members.take(n as int) =~= members);
        out.append("  </interface>\n</node>\n");
        assert(out@ =~= "<node>\n  <interface name=\""@ + self.name@ + "\">\n"@ + members_xml(
            members,
        ) + "  </interface>\n</node>\n"@);
        out
    }
}

/// Name of the backup interface.
pub const BACKUP_INTERFACE: &'static str = "org.lyraos.Vega1.Backup";

/// Name of the bluetooth interface.
pub const BLUETOOTH_INTERFACE: &'static str = "org.lyraos.Vega1.Bluetooth";

/// Name of the datetime interface.
pub const DATETIME_INTERFACE: &'static str = "org.lyraos.Vega1.DateTime";

/// Name of the firewall interface.
pub const FIREWALL_INTERFACE: &'static str = "org.lyraos.Vega1.Firewall";

/// Name of the kernel interface.
pub const KERNEL_INTERFACE: &'static str = "org.lyraos.Vega1.Kernel";

/// Name of the logs interface.
pub const LOGS_INTERFACE: &'static str = "org.lyraos.Vega1.Logs";

/// Name of the monitor interface.
pub const MONITOR_INTERFACE: &'static str = "org.lyraos.Vega1.Monitor";

/// Name of the network interface.
pub const NETWORK_INTERFACE: &'static str = "org.lyraos.Vega1.Network";

/// Name of the preparation interface.
pub const PREPARATION_INTERFACE: &'static str = "org.lyraos.Vega1.Preparation";

/// Name of the software interface.
pub const SOFTWARE_INTERFACE: &'static str = "org.lyraos.Vega1.Software";

/// Name of the storage interface.
pub const STORAGE_INTERFACE: &'static str = "org.lyraos.Vega1.Storage";

/// Name of the users interface.
pub const USERS_INTERFACE: &'static str = "org.lyraos.Vega1.Users";

/// The contract of the system interface.
pub open spec fn system_contract() -> InterfaceView {
    InterfaceView {
        name: crate::system::SYSTEM_INTERFACE@,
        members: seq![
            method_member("Version"@, seq![out_arg("s"@)]),
            method_member("Ping"@, seq![out_arg("b"@)]),
            method_member("Distro"@, seq![out_arg("s"@)]),
            method_member("Logo"@, seq![out_arg("s"@)]),
            method_member("DiskUsage"@, seq![out_arg("s"@), out_arg("s"@), out_arg("u"@)]),
        ],
    }
}

/// The system interface: its methods and signals, as the typed client calls
/// and receives them.
pub fn system() -> (r: InterfaceSpec)
    ensures
        r@ == system_contract(),
{
    let a0: Vec<ArgSpec> = vec![arg(ArgDirection::Out, "s")];
    assert(a0@.map_values(|a: ArgSpec| a@) =~= seq![out_arg("s"@)]);
    let m0 = member(MemberKind::Method, "Version", a0);
    let a1: Vec<ArgSpec> = vec![arg(ArgDirection::Out, "b")];
    assert(a1@.map_values(|a: ArgSpec| a@) =~= seq![out_arg("b"@)]);
    let m1 = member(MemberKind::Method, "Ping", a1);
    let a2: Vec<ArgSpec> = vec![arg(ArgDirection::Out, "s")];
    assert(a2@.map_values(|a: ArgSpec| a@) =~= seq![out_arg("s"@)]);
    let m2 = member(MemberKind::Method, "Distro", a2);
    let a3: Vec<ArgSpec> = vec![arg(ArgDirection::Out, "s")];
    assert(a3@.map_values(|a: ArgSpec| a@) =~= seq![out_arg("s"@)]);
    let m3 = member(MemberKind::Method, "Logo", a3);
    let a4: Vec<ArgSpec> = vec![arg(ArgDirection::Out, "s"), arg(ArgDirection::Out, "s"), arg(ArgDirection::Out, "u")];
    assert(a4@.map_values(|a: ArgSpec| a@) =~= seq![out_arg("s"@), out_arg("s"@), out_arg("u"@)]);
    let m4 = member(MemberKind::Method, "DiskUsage", a4);
    let r = interface(crate::system::SYSTEM_INTERFACE, vec![m0, m1, m2, m3, m4]);
    assert(r@.members =~= system_contract().members);
    r
}

/// The contract of the backup interface.
pub open spec fn backup_contract() -> InterfaceView {
    InterfaceView {
        name: BACKUP_INTERFACE@,
        members: seq![
            method_member("CreateConfig"@, seq![in_arg("(sassss)"@), out_arg("s"@)]),
            method_member("ListConfigs"@, seq![out_arg("a(sassss)"@)]),
            method_member("RunBackupNow"@, seq![in_arg("s"@), out_arg("u"@)]),
            method_member("ListSnapshots"@, seq![in_arg("s"@), out_arg("a(sxtt)"@)]),
            method_member("ListSnapshotPaths"@, seq![in_arg("s"@), in_arg("s"@), out_arg("as"@)]),
            method_member("RestoreSnapshot"@, seq![in_arg("s"@), in_arg("s"@), in_arg("s"@), out_arg("u"@)]),
            method_member("RestoreItems"@, seq![in_arg("s"@), in_arg("s"@), in_arg("s"@), in_arg("as"@), out_arg("u"@)]),
            method_member("DeleteConfig"@, seq![in_arg("s"@)]),
            signal_member("BackupProgress"@, seq![out_arg("u"@), out_arg("u"@), out_arg("s"@)]),
            signal_member("BackupFinished"@, seq![out_arg("u"@), out_arg("b"@), out_arg("s"@)]),
            signal_member("RestoreProgress"@, seq![out_arg("u"@), out_arg("u"@), out_arg("s"@)]),
            signal_member("RestoreFinished"@, seq![out_arg("u"@), out_arg("b"@), out_arg("s"@)]),
            signal_member("BackupAlert"@, seq![out_arg("s"@), out_arg("u"@), out_arg("s"@)]),
        ],
    }
}

/// The backup interface: its methods and signals, as the typed client calls
/// and receives them.
pub fn backup() -> (r: InterfaceSpec)
    ensures
        r@ == backup_contract(),
{
    let a0: Vec<ArgSpec> = vec![arg(ArgDirection::In, "(sassss)"), arg(ArgDirection::Out, "s")];
    assert(a0@.map_values(|a: ArgSpec| a@) =~= seq![in_arg("(sassss)"@), out_arg("s"@)]);
    let m0 = member(MemberKind::Method, "CreateConfig", a0);
    let a1: Vec<ArgSpec> = vec![arg(ArgDirection::Out, "a(sassss)")];
    assert(a1@.map_values(|a: ArgSpec| a@) =~= seq![out_arg("a(sassss)"@)]);
    let m1 = member(MemberKind::Method, "ListConfigs", a1);
    let a2: Vec<ArgSpec> = vec![arg(ArgDirection::In, "s"), arg(ArgDirection::Out, "u")];
    assert(a2@.map_values(|a: ArgSpec| a@) =~= seq![in_arg("s"@), out_arg("u"@)]);
    let m2 = member(MemberKind::Method, "RunBackupNow", a2);
    let a3: Vec<ArgSpec> = vec![arg(ArgDirection::In, "s"), arg(ArgDirection::Out, "a(sxtt)")];
    assert(a3@.map_values(|a: ArgSpec| a@) =~= seq![in_arg("s"@), out_arg("a(sxtt)"@)]);
    let m3 = member(MemberKind::Method, "ListSnapshots", a3);
    let a4: Vec<ArgSpec> = vec![arg(ArgDirection::In, "s"), arg(ArgDirection::In, "s"), arg(ArgDirection::Out, "as")];
    assert(a4@.map_values(|a: ArgSpec| a@) =~= seq![in_arg("s"@), in_arg("s"@), out_arg("as"@)]);
    let m4 = member(MemberKind::Method, "ListSnapshotPaths", a4);
    let a5: Vec<ArgSpec> = vec![arg(ArgDirection::In, "s"), arg(ArgDirection::In, "s"), arg(ArgDirection::In, "s"), arg(ArgDirection::Out, "u")];
    assert(a5@.map_values(|a: ArgSpec| a@) =~= seq![in_arg("s"@), in_arg("s"@), in_arg("s"@), out_arg("u"@)]);
    let m5 = member(MemberKind::Method, "RestoreSnapshot", a5);
    let a6: Vec<ArgSpec> = vec![arg(ArgDirection::In, "s"), arg(ArgDirection::In, "s"), arg(ArgDirection::In, "s"), arg(ArgDirection::In, "as"), arg(ArgDirection::Out, "u")];
    assert(a6@.map_values(|a: ArgSpec| a@) =~= seq![in_arg("s"@), in_arg("s"@), in_arg("s"@), in_arg("as"@), out_arg("u"@)]);
    let m6 = member(MemberKind::Method, "RestoreItems", a6);
    let a7: Vec<ArgSpec> = vec![arg(ArgDirection::In, "s")];
    assert(a7@.map_values(|a: ArgSpec| a@) =~= seq![in_arg("s"@)]);
    let m7 = member(MemberKind::Method, "DeleteConfig", a7);
    let a8: Vec<ArgSpec> = vec![arg(ArgDirection::Out, "u"), arg(ArgDirection::Out, "u"), arg(ArgDirection::Out, "s")];
    assert(a8@.map_values(|a: ArgSpec| a@) =~= seq![out_arg("u"@), out_arg("u"@), out_arg("s"@)]);
    let m8 = member(MemberKind::Signal, "BackupProgress", a8);
    let a9: Vec<ArgSpec> = vec![arg(ArgDirection::Out, "u"), arg(ArgDirection::Out, "b"), arg(ArgDirection::Out, "s")];
    assert(a9@.map_values(|a: ArgSpec| a@) =~= seq![out_arg("u"@), out_arg("b"@), out_arg("s"@)]);
    let m9 = member(MemberKind::Signal, "BackupFinished", a9);
    let a10: Vec<ArgSpec> = vec![arg(ArgDirection::Out, "u"), arg(ArgDirection::Out, "u"), arg(ArgDirection::Out, "s")];
    assert(a10@.map_values(|a: ArgSpec| a@) =~= seq![out_arg("u"@), out_arg("u"@), out_arg("s"@)]);
    let m10 = member(MemberKind::Signal, "RestoreProgress", a10);
    let a11: Vec<ArgSpec> = vec![arg(ArgDirection::Out, "u"), arg(ArgDirection::Out, "b"), arg(ArgDirection::Out, "s")];
    assert(a11@.map_values(|a: ArgSpec| a@) =~= seq![out_arg("u"@), out_arg("b"@), out_arg("s"@)]);
    let m11 = member(MemberKind::Signal, "RestoreFinished", a11);
    let a12: Vec<ArgSpec> = vec![arg(ArgDirection::Out, "s"), arg(ArgDirection::Out, "u"), arg(ArgDirection::Out, "s")];
    assert(a12@.map_values(|a: ArgSpec| a@) =~= seq![out_arg("s"@), out_arg("u"@), out_arg("s"@)]);
    let m12 = member(MemberKind::Signal, "BackupAlert", a12);
    let r = interface(BACKUP_INTERFACE, vec![m0, m1, m2, m3, m4, m5, m6, m7, m8, m9, m10, m11, m12]);
    assert(r@.members =~= backup_contract().members);
    r
}

/// The contract of the bluetooth interface.
pub open spec fn bluetooth_contract() -> InterfaceView {
    InterfaceView {
        name: BLUETOOTH_INTERFACE@,
        members: seq![
            method_member("Status"@, seq![out_arg("(bbbbbssbbs)"@)]),
            method_member("ListDevices"@, seq![out_arg("a(ssssbbbbi)"@)]),
            method_member("SetPowered"@, seq![in_arg("b"@)]),
            method_member("SetScanning"@, seq![in_arg("b"@)]),
            method_member("Pair"@, seq![in_arg("s"@)]),
            method_member("Connect"@, seq![in_arg("s"@)]),
            method_member("Disconnect"@, seq![in_arg("s"@)]),
            method_member("SendFile"@, seq![in_arg("s"@), in_arg("s"@)]),
            method_member("StartFileReceiver"@, seq![in_arg("s"@)]),
        ],
    }
}

/// The bluetooth interface: its methods and signals, as the typed client calls
/// and receives them.
pub fn bluetooth() -> (r: InterfaceSpec)
    ensures
        r@ == bluetooth_contract(),
{
    let a0: Vec<ArgSpec> = vec![arg(ArgDirection::Out, "(bbbbbssbbs)")];
    assert(a0@.map_values(|a: ArgSpec| a@) =~= seq![out_arg("(bbbbbssbbs)"@)]);
    let m0 = member(MemberKind::Method, "Status", a0);
    let a1: Vec<ArgSpec> = vec![arg(ArgDirection::Out, "a(ssssbbbbi)")];
    assert(a1@.map_values(|a: ArgSpec| a@) =~= seq![out_arg("a(ssssbbbbi)"@)]);
    let m1 = member(MemberKind::Method, "ListDevices", a1);
    let a2: Vec<ArgSpec> = vec![arg(ArgDirection::In, "b")];
    assert(a2@.map_values(|a: ArgSpec| a@) =~= seq![in_arg("b"@)]);
    let m2 = member(MemberKind::Method, "SetPowered", a2);
    let a3: Vec<ArgSpec> = vec![arg(ArgDirection::In, "b")];
    assert(a3@.map_values(|a: ArgSpec| a@) =~= seq![in_arg("b"@)]);
    let m3 = member(MemberKind::Method, "SetScanning", a3);
    let a4: Vec<ArgSpec> = vec![arg(ArgDirection::In, "s")];
    assert(a4@.map_values(|a: ArgSpec| a@) =~= seq![in_arg("s"@)]);
    let m4 = member(MemberKind::Method, "Pair", a4);
    let a5: Vec<ArgSpec> = vec![arg(ArgDirection::In, "s")];
    assert(a5@.map_values(|a: ArgSpec| a@) =~= seq![in_arg("s"@)]);
    let m5 = member(MemberKind::Method, "Connect", a5);
    let a6: Vec<ArgSpec> = vec![arg(ArgDirection::In, "s")];
    assert(a6@.map_values(|a: ArgSpec| a@) =~= seq![in_arg("s"@)]);
    let m6 = member(MemberKind::Method, "Disconnect", a6);
    let a7: Vec<ArgSpec> = vec![arg(ArgDirection::In, "s"), arg(ArgDirection::In, "s")];
    assert(a7@.map_values(|a: ArgSpec| a@) =~= seq![in_arg("s"@), in_arg("s"@)]);
    let m7 = member(MemberKind::Method, "SendFile", a7);
    let a8: Vec<ArgSpec> = vec![arg(ArgDirection::In, "s")];
    assert(a8@.map_values(|a: ArgSpec| a@) =~= seq![in_arg("s"@)]);
    let m8 = member(MemberKind::Method, "StartFileReceiver", a8);
    let r = interface(BLUETOOTH_INTERFACE, vec![m0, m1, m2, m3, m4, m5, m6, m7, m8]);
    assert(r@.members =~= bluetooth_contract().members);
    r
}

/// The contract of the datetime interface.
pub open spec fn datetime_contract() -> InterfaceView {
    InterfaceView {
        name: DATETIME_INTERFACE@,
        members: seq![
            method_member("Status"@, seq![out_arg("(sbss)"@)]),
            method_member("ListTimezones"@, seq![out_arg("as"@)]),
            method_member("ListLocales"@, seq![out_arg("as"@)]),
            method_member("ListKeymaps"@, seq![out_arg("as"@)]),
            method_member("Apply"@, seq![in_arg("s"@), in_arg("b"@), in_arg("s"@), in_arg("s"@)]),
        ],
    }
}

/// The datetime interface: its methods and signals, as the typed client calls
/// and receives them.
pub fn datetime() -> (r: InterfaceSpec)
    ensures
        r@ == datetime_contract(),
{
    let a0: Vec<ArgSpec> = vec![arg(ArgDirection::Out, "(sbss)")];
    assert(a0@.map_values(|a: ArgSpec| a@) =~= seq![out_arg("(sbss)"@)]);
    let m0 = member(MemberKind::Method, "Status", a0);
    let a1: Vec<ArgSpec> = vec![arg(ArgDirection::Out, "as")];
    assert(a1@.map_values(|a: ArgSpec| a@) =~= seq![out_arg("as"@)]);
    let m1 = member(MemberKind::Method, "ListTimezones", a1);
    let a2: Vec<ArgSpec> = vec![arg(ArgDirection::Out, "as")];
    assert(a2@.map_values(|a: ArgSpec| a@) =~= seq![out_arg("as"@)]);
    let m2 = member(MemberKind::Method, "ListLocales", a2);
    let a3: Vec<ArgSpec> = vec![arg(ArgDirection::Out, "as")];
    assert(a3@.map_values(|a: ArgSpec| a@) =~= seq![out_arg("as"@)]);
    let m3 = member(MemberKind::Method, "ListKeymaps", a3);
    let a4: Vec<ArgSpec> = vec![arg(ArgDirection::In, "s"), arg(ArgDirection::In, "b"), arg(ArgDirection::In, "s"), arg(ArgDirection::In, "s")];
    assert(a4@.map_values(|a: ArgSpec| a@) =~= seq![in_arg("s"@), in_arg("b"@), in_arg("s"@), in_arg("s"@)]);
    let m4 = member(MemberKind::Method, "Apply", a4);
    let r = interface(DATETIME_INTERFACE, vec![m0, m1, m2, m3, m4]);
    assert(r@.members =~= datetime_contract().members);
    r
}

/// The contract of the firewall interface.
pub open spec fn firewall_contract() -> InterfaceView {
    InterfaceView {
        name: FIREWALL_INTERFACE@,
        members: seq![
            method_member("Status"@, seq![out_arg("(bs)"@)]),
            method_member("ListServices"@, seq![out_arg("a(ssb)"@)]),
            method_member("SetServiceEnabled"@, seq![in_arg("s"@), in_arg("b"@)]),
        ],
    }
}

/// The firewall interface: its methods and signals, as the typed client calls
/// and receives them.
pub fn firewall() -> (r: InterfaceSpec)
    ensures
        r@ == firewall_contract(),
{
    let a0: Vec<ArgSpec> = vec![arg(ArgDirection::Out, "(bs)")];
    assert(a0@.map_values(|a: ArgSpec| a@) =~= seq![out_arg("(bs)"@)]);
    let m0 = member(MemberKind::Method, "Status", a0);
    let a1: Vec<ArgSpec> = vec![arg(ArgDirection::Out, "a(ssb)")];
    assert(a1@.map_values(|a: ArgSpec| a@) =~= seq![out_arg("a(ssb)"@)]);
    let m1 = member(MemberKind::Method, "ListServices", a1);
    let a2: Vec<ArgSpec> = vec![arg(ArgDirection::In, "s"), arg(ArgDirection::In, "b")];
    assert(a2@.map_values(|a: ArgSpec| a@) =~= seq![in_arg("s"@), in_arg("b"@)]);
    let m2 = member(MemberKind::Method, "SetServiceEnabled", a2);
    let r = interface(FIREWALL_INTERFACE, vec![m0, m1, m2]);
    assert(r@.members =~= firewall_contract().members);
    r
}

/// The contract of the kernel interface.
pub open spec fn kernel_contract() -> InterfaceView {
    InterfaceView {
        name: KERNEL_INTERFACE@,
        members: seq![
            method_member("ListInstalled"@, seq![out_arg("as"@)]),
            method_member("AvailablePackages"@, seq![out_arg("as"@)]),
            method_member("BootStatus"@, seq![out_arg("(ssus)"@)]),
            method_member("ListBootEntries"@, seq![out_arg("as"@)]),
            method_member("Install"@, seq![in_arg("s"@), out_arg("u"@)]),
            method_member("Remove"@, seq![in_arg("s"@)]),
            method_member("ApplyBootConfig"@, seq![in_arg("s"@), in_arg("u"@), in_arg("s"@)]),
        ],
    }
}

/// The kernel interface: its methods and signals, as the typed client calls
/// and receives them.
pub fn kernel() -> (r: InterfaceSpec)
    ensures
        r@ == kernel_contract(),
{
    let a0: Vec<ArgSpec> = vec![arg(ArgDirection::Out, "as")];
    assert(a0@.map_values(|a: ArgSpec| a@) =~= seq![out_arg("as"@)]);
    let m0 = member(MemberKind::Method, "ListInstalled", a0);
    let a1: Vec<ArgSpec> = vec![arg(ArgDirection::Out, "as")];
    assert(a1@.map_values(|a: ArgSpec| a@) =~= seq![out_arg("as"@)]);
    let m1 = member(MemberKind::Method, "AvailablePackages", a1);
    let a2: Vec<ArgSpec> = vec![arg(ArgDirection::Out, "(ssus)")];
    assert(a2@.map_values(|a: ArgSpec| a@) =~= seq![out_arg("(ssus)"@)]);
    let m2 = member(MemberKind::Method, "BootStatus", a2);
    let a3: Vec<ArgSpec> = vec![arg(ArgDirection::Out, "as")];
    assert(a3@.map_values(|a: ArgSpec| a@) =~= seq![out_arg("as"@)]);
    let m3 = member(MemberKind::Method, "ListBootEntries", a3);
    let a4: Vec<ArgSpec> = vec![arg(ArgDirection::In, "s"), arg(ArgDirection::Out, "u")];
    assert(a4@.map_values(|a: ArgSpec| a@) =~= seq![in_arg("s"@), out_arg("u"@)]);
    let m4 = member(MemberKind::Method, "Install", a4);
    let a5: Vec<ArgSpec> = vec![arg(ArgDirection::In, "s")];
    assert(a5@.map_values(|a: ArgSpec| a@) =~= seq![in_arg("s"@)]);
    let m5 = member(MemberKind::Method, "Remove", a5);
    let a6: Vec<ArgSpec> = vec![arg(ArgDirection::In, "s"), arg(ArgDirection::In, "u"), arg(ArgDirection::In, "s")];
    assert(a6@.map_values(|a: ArgSpec| a@) =~= seq![in_arg("s"@), in_arg("u"@), in_arg("s"@)]);
    let m6 = member(MemberKind::Method, "ApplyBootConfig", a6);
    let r = interface(KERNEL_INTERFACE, vec![m0, m1, m2, m3, m4, m5, m6]);
    assert(r@.members =~= kernel_contract().members);
    r
}

/// The contract of the logs interface.
pub open spec fn logs_contract() -> InterfaceView {
    InterfaceView {
        name: LOGS_INTERFACE@,
        members: seq![
            method_member("ListUnits"@, seq![out_arg("as"@)]),
            method_member("Query"@, seq![in_arg("s"@), in_arg("s"@), in_arg("s"@), in_arg("s"@), in_arg("u"@), out_arg("as"@)]),
        ],
    }
}

/// The logs interface: its methods and signals, as the typed client calls
/// and receives them.
pub fn logs() -> (r: InterfaceSpec)
    ensures
        r@ == logs_contract(),
{
    let a0: Vec<ArgSpec> = vec![arg(ArgDirection::Out, "as")];
    assert(a0@.map_values(|a: ArgSpec| a@) =~= seq![out_arg("as"@)]);
    let m0 = member(MemberKind::Method, "ListUnits", a0);
    let a1: Vec<ArgSpec> = vec![arg(ArgDirection::In, "s"), arg(ArgDirection::In, "s"), arg(ArgDirection::In, "s"), arg(ArgDirection::In, "s"), arg(ArgDirection::In, "u"), arg(ArgDirection::Out, "as")];
    assert(a1@.map_values(|a: ArgSpec| a@) =~= seq![in_arg("s"@), in_arg("s"@), in_arg("s"@), in_arg("s"@), in_arg("u"@), out_arg("as"@)]);
    let m1 = member(MemberKind::Method, "Query", a1);
    let r = interface(LOGS_INTERFACE, vec![m0, m1]);
    assert(r@.members =~= logs_contract().members);
    r
}

/// The contract of the monitor interface.
pub open spec fn monitor_contract() -> InterfaceView {
    InterfaceView {
        name: MONITOR_INTERFACE@,
        members: seq![
            method_member("Metrics"@, seq![out_arg("(dttttttttad)"@)]),
            method_member("ListProcesses"@, seq![out_arg("a(uussdts)"@)]),
            method_member("KillProcess"@, seq![in_arg("u"@)]),
        ],
    }
}

/// The monitor interface: its methods and signals, as the typed client calls
/// and receives them.
pub fn monitor() -> (r: InterfaceSpec)
    ensures
        r@ == monitor_contract(),
{
    let a0: Vec<ArgSpec> = vec![arg(ArgDirection::Out, "(dttttttttad)")];
    assert(a0@.map_values(|a: ArgSpec| a@) =~= seq![out_arg("(dttttttttad)"@)]);
    let m0 = member(MemberKind::Method, "Metrics", a0);
    let a1: Vec<ArgSpec> = vec![arg(ArgDirection::Out, "a(uussdts)")];
    assert(a1@.map_values(|a: ArgSpec| a@) =~= seq![out_arg("a(uussdts)"@)]);
    let m1 = member(MemberKind::Method, "ListProcesses", a1);
    let a2: Vec<ArgSpec> = vec![arg(ArgDirection::In, "u")];
    assert(a2@.map_values(|a: ArgSpec| a@) =~= seq![in_arg("u"@)]);
    let m2 = member(MemberKind::Method, "KillProcess", a2);
    let r = interface(MONITOR_INTERFACE, vec![m0, m1, m2]);
    assert(r@.members =~= monitor_contract().members);
    r
}

/// The contract of the network interface.
pub open spec fn network_contract() -> InterfaceView {
    InterfaceView {
        name: NETWORK_INTERFACE@,
        members: seq![
            method_member("ListInterfaces"@, seq![out_arg("a(ssssssssssusb)"@)]),
            method_member("ListWifi"@, seq![out_arg("a(ssubs)"@)]),
            method_member("GetProxy"@, seq![out_arg("(ssss)"@)]),
            method_member("SetProxy"@, seq![in_arg("s"@), in_arg("s"@), in_arg("s"@), in_arg("s"@)]),
            method_member("ConnectWifi"@, seq![in_arg("s"@), in_arg("s"@)]),
            method_member("Disconnect"@, seq![in_arg("s"@)]),
            method_member("SetStaticIPv4"@, seq![in_arg("s"@), in_arg("s"@), in_arg("s"@), in_arg("s"@)]),
            method_member("ImportVPN"@, seq![in_arg("s"@)]),
        ],
    }
}

/// The network interface: its methods and signals, as the typed client calls
/// and receives them.
pub fn network() -> (r: InterfaceSpec)
    ensures
        r@ == network_contract(),
{
    let a0: Vec<ArgSpec> = vec![arg(ArgDirection::Out, "a(ssssssssssusb)")];
    assert(a0@.map_values(|a: ArgSpec| a@) =~= seq![out_arg("a(ssssssssssusb)"@)]);
    let m0 = member(MemberKind::Method, "ListInterfaces", a0);
    let a1: Vec<ArgSpec> = vec![arg(ArgDirection::Out, "a(ssubs)")];
    assert(a1@.map_values(|a: ArgSpec| a@) =~= seq![out_arg("a(ssubs)"@)]);
    let m1 = member(MemberKind::Method, "ListWifi", a1);
    let a2: Vec<ArgSpec> = vec![arg(ArgDirection::Out, "(ssss)")];
    assert(a2@.map_values(|a: ArgSpec| a@) =~= seq![out_arg("(ssss)"@)]);
    let m2 = member(MemberKind::Method, "GetProxy", a2);
    let a3: Vec<ArgSpec> = vec![arg(ArgDirection::In, "s"), arg(ArgDirection::In, "s"), arg(ArgDirection::In, "s"), arg(ArgDirection::In, "s")];
    assert(a3@.map_values(|a: ArgSpec| a@) =~= seq![in_arg("s"@), in_arg("s"@), in_arg("s"@), in_arg("s"@)]);
    let m3 = member(MemberKind::Method, "SetProxy", a3);
    let a4: Vec<ArgSpec> = vec![arg(ArgDirection::In, "s"), arg(ArgDirection::In, "s")];
    assert(a4@.map_values(|a: ArgSpec| a@) =~= seq![in_arg("s"@), in_arg("s"@)]);
    let m4 = member(MemberKind::Method, "ConnectWifi", a4);
    let a5: Vec<ArgSpec> = vec![arg(ArgDirection::In, "s")];
    assert(a5@.map_values(|a: ArgSpec| a@) =~= seq![in_arg("s"@)]);
    let m5 = member(MemberKind::Method, "Disconnect", a5);
    let a6: Vec<ArgSpec> = vec![arg(ArgDirection::In, "s"), arg(ArgDirection::In, "s"), arg(ArgDirection::In, "s"), arg(ArgDirection::In, "s")];
    assert(a6@.map_values(|a: ArgSpec| a@) =~= seq![in_arg("s"@), in_arg("s"@), in_arg("s"@), in_arg("s"@)]);
    let m6 = member(MemberKind::Method, "SetStaticIPv4", a6);
    let a7: Vec<ArgSpec> = vec![arg(ArgDirection::In, "s")];
    assert(a7@.map_values(|a: ArgSpec| a@) =~= seq![in_arg("s"@)]);
    let m7 = member(MemberKind::Method, "ImportVPN", a7);
    let r = interface(NETWORK_INTERFACE, vec![m0, m1, m2, m3, m4, m5, m6, m7]);
    assert(r@.members =~= network_contract().members);
    r
}

/// The contract of the preparation interface.
pub open spec fn preparation_contract() -> InterfaceView {
    InterfaceView {
        name: PREPARATION_INTERFACE@,
        members: seq![
            method_member("GetStatus"@, seq![out_arg("(ssssssb)"@)]),
            method_member("GetPendingKeys"@, seq![out_arg("a(ssss)"@)]),
            method_member("ApproveKey"@, seq![in_arg("s"@), in_arg("s"@), in_arg("s"@), out_arg("u"@)]),
            method_member("Retry"@, seq![]),
        ],
    }
}

/// The preparation interface: its methods and signals, as the typed client calls
/// and receives them.
pub fn preparation() -> (r: InterfaceSpec)
    ensures
        r@ == preparation_contract(),
{
    let a0: Vec<ArgSpec> = vec![arg(ArgDirection::Out, "(ssssssb)")];
    assert(a0@.map_values(|a: ArgSpec| a@) =~= seq![out_arg("(ssssssb)"@)]);
    let m0 = member(MemberKind::Method, "GetStatus", a0);
    let a1: Vec<ArgSpec> = vec![arg(ArgDirection::Out, "a(ssss)")];
    assert(a1@.map_values(|a: ArgSpec| a@) =~= seq![out_arg("a(ssss)"@)]);
    let m1 = member(MemberKind::Method, "GetPendingKeys", a1);
    let a2: Vec<ArgSpec> = vec![arg(ArgDirection::In, "s"), arg(ArgDirection::In, "s"), arg(ArgDirection::In, "s"), arg(ArgDirection::Out, "u")];
    assert(a2@.map_values(|a: ArgSpec| a@) =~= seq![in_arg("s"@), in_arg("s"@), in_arg("s"@), out_arg("u"@)]);
    let m2 = member(MemberKind::Method, "ApproveKey", a2);
    let a3: Vec<ArgSpec> = vec![];
    assert(a3@.map_values(|a: ArgSpec| a@) =~= seq![]);
    let m3 = member(MemberKind::Method, "Retry", a3);
    let r = interface(PREPARATION_INTERFACE, vec![m0, m1, m2, m3]);
    assert(r@.members =~= preparation_contract().members);
    r
}

/// The contract of the software interface.
pub open spec fn software_contract() -> InterfaceView {
    InterfaceView {
        name: SOFTWARE_INTERFACE@,
        members: seq![
            method_member("PackageManagerName"@, seq![out_arg("s"@)]),
            method_member("Search"@, seq![in_arg("s"@), out_arg("a(ssssbss)"@)]),
            method_member("SearchNative"@, seq![in_arg("s"@), out_arg("a(ssssbss)"@)]),
            method_member("GetPackageDetails"@, seq![in_arg("s"@), in_arg("s"@), out_arg("(ssssbssssasasss)"@)]),
            method_member("ListUpdates"@, seq![out_arg("a(ssssbss)"@)]),
            method_member("ListNativeUpdates"@, seq![out_arg("a(ssssbss)"@)]),
            method_member("GetUpdateStatus"@, seq![out_arg("(ssuuuubs)"@)]),
            method_member("RequestUpdateCheck"@, seq![out_arg("(ssuuuubs)"@)]),
            method_member("ListInstalled"@, seq![out_arg("a(ssssbss)"@)]),
            method_member("ListNativeInstalled"@, seq![out_arg("a(ssssbss)"@)]),
            method_member("ListRepos"@, seq![out_arg("a(sb)"@)]),
            method_member("Install"@, seq![in_arg("s"@), in_arg("s"@), out_arg("u"@)]),
            method_member("Remove"@, seq![in_arg("s"@), in_arg("s"@), out_arg("u"@)]),
            method_member("UpdateAll"@, seq![out_arg("u"@)]),
            method_member("UpdateAllNative"@, seq![out_arg("u"@)]),
            method_member("UpdatePackage"@, seq![in_arg("s"@), in_arg("s"@), out_arg("u"@)]),
            method_member("SetRepoEnabled"@, seq![in_arg("s"@), in_arg("b"@)]),
            method_member("AddRepo"@, seq![in_arg("s"@), in_arg("s"@), out_arg("u"@)]),
            method_member("TrustRepoKey"@, seq![in_arg("s"@), in_arg("s"@), out_arg("u"@)]),
            method_member("ClearCache"@, seq![out_arg("u"@)]),
            method_member("ClearNativeCache"@, seq![out_arg("u"@)]),
            method_member("NvidiaStatus"@, seq![out_arg("(bbbssssu)"@)]),
            method_member("NvidiaRecovery"@, seq![out_arg("(bssss)"@)]),
            method_member("InstallNvidia"@, seq![in_arg("b"@), out_arg("u"@)]),
            method_member("CheckNvidia"@, seq![out_arg("b"@), out_arg("s"@)]),
            method_member("NonFreeFirmwareStatus"@, seq![out_arg("(bbsas)"@)]),
            method_member("InstallNonFreeFirmware"@, seq![in_arg("b"@), out_arg("u"@)]),
            signal_member("TransactionProgress"@, seq![out_arg("u"@), out_arg("u"@), out_arg("s"@)]),
            signal_member("TransactionFinished"@, seq![out_arg("u"@), out_arg("b"@), out_arg("s"@)]),
            signal_member("PackageProgress"@, seq![out_arg("u"@), out_arg("s"@), out_arg("s"@), out_arg("u"@)]),
            signal_member("TransactionConsoleLine"@, seq![out_arg("u"@), out_arg("s"@), out_arg("s"@)]),
            signal_member("UpdatesAvailable"@, seq![out_arg("u"@)]),
            signal_member("UpdateStateChanged"@, seq![out_arg("(ssuuuubs)"@)]),
            signal_member("RepoKeyPending"@, seq![out_arg("u"@), out_arg("s"@), out_arg("s"@), out_arg("s"@), out_arg("s"@)]),
        ],
    }
}

/// The software interface: its methods and signals, as the typed client calls
/// and receives them.
pub fn software() -> (r: InterfaceSpec)
    ensures
        r@ == software_contract(),
{
    let a0: Vec<ArgSpec> = vec![arg(ArgDirection::Out, "s")];
    assert(a0@.map_values(|a: ArgSpec| a@) =~= seq![out_arg("s"@)]);
    let m0 = member(MemberKind::Method, "PackageManagerName", a0);
    let a1: Vec<ArgSpec> = vec![arg(ArgDirection::In, "s"), arg(ArgDirection::Out, "a(ssssbss)")];
    assert(a1@.map_values(|a: ArgSpec| a@) =~= seq![in_arg("s"@), out_arg("a(ssssbss)"@)]);
    let m1 = member(MemberKind::Method, "Search", a1);
    let a2: Vec<ArgSpec> = vec![arg(ArgDirection::In, "s"), arg(ArgDirection::Out, "a(ssssbss)")];
    assert(a2@.map_values(|a: ArgSpec| a@) =~= seq![in_arg("s"@), out_arg("a(ssssbss)"@)]);
    let m2 = member(MemberKind::Method, "SearchNative", a2);
    let a3: Vec<ArgSpec> = vec![arg(ArgDirection::In, "s"), arg(ArgDirection::In, "s"), arg(ArgDirection::Out, "(ssssbssssasasss)")];
    assert(a3@.map_values(|a: ArgSpec| a@) =~= seq![in_arg("s"@), in_arg("s"@), out_arg("(ssssbssssasasss)"@)]);
    let m3 = member(MemberKind::Method, "GetPackageDetails", a3);
    let a4: Vec<ArgSpec> = vec![arg(ArgDirection::Out, "a(ssssbss)")];
    assert(a4@.map_values(|a: ArgSpec| a@) =~= seq![out_arg("a(ssssbss)"@)]);
    let m4 = member(MemberKind::Method, "ListUpdates", a4);
    let a5: Vec<ArgSpec> = vec![arg(ArgDirection::Out, "a(ssssbss)")];
    assert(a5@.map_values(|a: ArgSpec| a@) =~= seq![out_arg("a(ssssbss)"@)]);
    let m5 = member(MemberKind::Method, "ListNativeUpdates", a5);
    let a6: Vec<ArgSpec> = vec![arg(ArgDirection::Out, "(ssuuuubs)")];
    assert(a6@.map_values(|a: ArgSpec| a@) =~= seq![out_arg("(ssuuuubs)"@)]);
    let m6 = member(MemberKind::Method, "GetUpdateStatus", a6);
    let a7: Vec<ArgSpec> = vec![arg(ArgDirection::Out, "(ssuuuubs)")];
    assert(a7@.map_values(|a: ArgSpec| a@) =~= seq![out_arg("(ssuuuubs)"@)]);
    let m7 = member(MemberKind::Method, "RequestUpdateCheck", a7);
    let a8: Vec<ArgSpec> = vec![arg(ArgDirection::Out, "a(ssssbss)")];
    assert(a8@.map_values(|a: ArgSpec| a@) =~= seq![out_arg("a(ssssbss)"@)]);
    let m8 = member(MemberKind::Method, "ListInstalled", a8);
    let a9: Vec<ArgSpec> = vec![arg(ArgDirection::Out, "a(ssssbss)")];
    assert(a9@.map_values(|a: ArgSpec| a@) =~= seq![out_arg("a(ssssbss)"@)]);
    let m9 = member(MemberKind::Method, "ListNativeInstalled", a9);
    let a10: Vec<ArgSpec> = vec![arg(ArgDirection::Out, "a(sb)")];
    assert(a10@.map_values(|a: ArgSpec| a@) =~= seq![out_arg("a(sb)"@)]);
    let m10 = member(MemberKind::Method, "ListRepos", a10);
    let a11: Vec<ArgSpec> = vec![arg(ArgDirection::In, "s"), arg(ArgDirection::In, "s"), arg(ArgDirection::Out, "u")];
    assert(a11@.map_values(|a: ArgSpec| a@) =~= seq![in_arg("s"@), in_arg("s"@), out_arg("u"@)]);
    let m11 = member(MemberKind::Method, "Install", a11);
    let a12: Vec<ArgSpec> = vec![arg(ArgDirection::In, "s"), arg(ArgDirection::In, "s"), arg(ArgDirection::Out, "u")];
    assert(a12@.map_values(|a: ArgSpec| a@) =~= seq![in_arg("s"@), in_arg("s"@), out_arg("u"@)]);
    let m12 = member(MemberKind::Method, "Remove", a12);
    let a13: Vec<ArgSpec> = vec![arg(ArgDirection::Out, "u")];
    assert(a13@.map_values(|a: ArgSpec| a@) =~= seq![out_arg("u"@)]);
    let m13 = member(MemberKind::Method, "UpdateAll", a13);
    let a14: Vec<ArgSpec> = vec![arg(ArgDirection::Out, "u")];
    assert(a14@.map_values(|a: ArgSpec| a@) =~= seq![out_arg("u"@)]);
    let m14 = member(MemberKind::Method, "UpdateAllNative", a14);
    let a15: Vec<ArgSpec> = vec![arg(ArgDirection::In, "s"), arg(ArgDirection::In, "s"), arg(ArgDirection::Out, "u")];
    assert(a15@.map_values(|a: ArgSpec| a@) =~= seq![in_arg("s"@), in_arg("s"@), out_arg("u"@)]);
    let m15 = member(MemberKind::Method, "UpdatePackage", a15);
    let a16: Vec<ArgSpec> = vec![arg(ArgDirection::In, "s"), arg(ArgDirection::In, "b")];
    assert(a16@.map_values(|a: ArgSpec| a@) =~= seq![in_arg("s"@), in_arg("b"@)]);
    let m16 = member(MemberKind::Method, "SetRepoEnabled", a16);
    let a17: Vec<ArgSpec> = vec![arg(ArgDirection::In, "s"), arg(ArgDirection::In, "s"), arg(ArgDirection::Out, "u")];
    assert(a17@.map_values(|a: ArgSpec| a@) =~= seq![in_arg("s"@), in_arg("s"@), out_arg("u"@)]);
    let m17 = member(MemberKind::Method, "AddRepo", a17);
    let a18: Vec<ArgSpec> = vec![arg(ArgDirection::In, "s"), arg(ArgDirection::In, "s"), arg(ArgDirection::Out, "u")];
    assert(a18@.map_values(|a: ArgSpec| a@) =~= seq![in_arg("s"@), in_arg("s"@), out_arg("u"@)]);
    let m18 = member(MemberKind::Method, "TrustRepoKey", a18);
    let a19: Vec<ArgSpec> = vec![arg(ArgDirection::Out, "u")];
    assert(a19@.map_values(|a: ArgSpec| a@) =~= seq![out_arg("u"@)]);
    let m19 = member(MemberKind::Method, "ClearCache", a19);
    let a20: Vec<ArgSpec> = vec![arg(ArgDirection::Out, "u")];
    assert(a20@.map_values(|a: ArgSpec| a@) =~= seq![out_arg("u"@)]);
    let m20 = member(MemberKind::Method, "ClearNativeCache", a20);
    let a21: Vec<ArgSpec> = vec![arg(ArgDirection::Out, "(bbbssssu)")];
    assert(a21@.map_values(|a: ArgSpec| a@) =~= seq![out_arg("(bbbssssu)"@)]);
    let m21 = member(MemberKind::Method, "NvidiaStatus", a21);
    let a22: Vec<ArgSpec> = vec![arg(ArgDirection::Out, "(bssss)")];
    assert(a22@.map_values(|a: ArgSpec| a@) =~= seq![out_arg("(bssss)"@)]);
    let m22 = member(MemberKind::Method, "NvidiaRecovery", a22);
    let a23: Vec<ArgSpec> = vec![arg(ArgDirection::In, "b"), arg(ArgDirection::Out, "u")];
    assert(a23@.map_values(|a: ArgSpec| a@) =~= seq![in_arg("b"@), out_arg("u"@)]);
    let m23 = member(MemberKind::Method, "InstallNvidia", a23);
    let a24: Vec<ArgSpec> = vec![arg(ArgDirection::Out, "b"), arg(ArgDirection::Out, "s")];
    assert(a24@.map_values(|a: ArgSpec| a@) =~= seq![out_arg("b"@), out_arg("s"@)]);
    let m24 = member(MemberKind::Method, "CheckNvidia", a24);
    let a25: Vec<ArgSpec> = vec![arg(ArgDirection::Out, "(bbsas)")];
    assert(a25@.map_values(|a: ArgSpec| a@) =~= seq![out_arg("(bbsas)"@)]);
    let m25 = member(MemberKind::Method, "NonFreeFirmwareStatus", a25);
    let a26: Vec<ArgSpec> = vec![arg(ArgDirection::In, "b"), arg(ArgDirection::Out, "u")];
    assert(a26@.map_values(|a: ArgSpec| a@) =~= seq![in_arg("b"@), out_arg("u"@)]);
    let m26 = member(MemberKind::Method, "InstallNonFreeFirmware", a26);
    let a27: Vec<ArgSpec> = vec![arg(ArgDirection::Out, "u"), arg(ArgDirection::Out, "u"), arg(ArgDirection::Out, "s")];
    assert(a27@.map_values(|a: ArgSpec| a@) =~= seq![out_arg("u"@), out_arg("u"@), out_arg("s"@)]);
    let m27 = member(MemberKind::Signal, "TransactionProgress", a27);
    let a28: Vec<ArgSpec> = vec![arg(ArgDirection::Out, "u"), arg(ArgDirection::Out, "b"), arg(ArgDirection::Out, "s")];
    assert(a28@.map_values(|a: ArgSpec| a@) =~= seq![out_arg("u"@), out_arg("b"@), out_arg("s"@)]);
    let m28 = member(MemberKind::Signal, "TransactionFinished", a28);
    let a29: Vec<ArgSpec> = vec![arg(ArgDirection::Out, "u"), arg(ArgDirection::Out, "s"), arg(ArgDirection::Out, "s"), arg(ArgDirection::Out, "u")];
    assert(a29@.map_values(|a: ArgSpec| a@) =~= seq![out_arg("u"@), out_arg("s"@), out_arg("s"@), out_arg("u"@)]);
    let m29 = member(MemberKind::Signal, "PackageProgress", a29);
    let a30: Vec<ArgSpec> = vec![arg(ArgDirection::Out, "u"), arg(ArgDirection::Out, "s"), arg(ArgDirection::Out, "s")];
    assert(a30@.map_values(|a: ArgSpec| a@) =~= seq![out_arg("u"@), out_arg("s"@), out_arg("s"@)]);
    let m30 = member(MemberKind::Signal, "TransactionConsoleLine", a30);
    let a31: Vec<ArgSpec> = vec![arg(ArgDirection::Out, "u")];
    assert(a31@.map_values(|a: ArgSpec| a@) =~= seq![out_arg("u"@)]);
    let m31 = member(MemberKind::Signal, "UpdatesAvailable", a31);
    let a32: Vec<ArgSpec> = vec![arg(ArgDirection::Out, "(ssuuuubs)")];
    assert(a32@.map_values(|a: ArgSpec| a@) =~= seq![out_arg("(ssuuuubs)"@)]);
    let m32 = member(MemberKind::Signal, "UpdateStateChanged", a32);
    let a33: Vec<ArgSpec> = vec![arg(ArgDirection::Out, "u"), arg(ArgDirection::Out, "s"), arg(ArgDirection::Out, "s"), arg(ArgDirection::Out, "s"), arg(ArgDirection::Out, "s")];
    assert(a33@.map_values(|a: ArgSpec| a@) =~= seq![out_arg("u"@), out_arg("s"@), out_arg("s"@), out_arg("s"@), out_arg("s"@)]);
    let m33 = member(MemberKind::Signal, "RepoKeyPending", a33);
    let r = interface(SOFTWARE_INTERFACE, vec![m0, m1, m2, m3, m4, m5, m6, m7, m8, m9, m10, m11, m12, m13, m14, m15, m16, m17, m18, m19, m20, m21, m22, m23, m24, m25, m26, m27, m28, m29, m30, m31, m32, m33]);
    assert(r@.members =~= software_contract().members);
    r
}

/// The contract of the storage interface.
pub open spec fn storage_contract() -> InterfaceView {
    InterfaceView {
        name: STORAGE_INTERFACE@,
        members: seq![
            method_member("ListVolumes"@, seq![out_arg("a(sssssssussbbb)"@)]),
            method_member("Mount"@, seq![in_arg("s"@)]),
            method_member("Unmount"@, seq![in_arg("s"@)]),
        ],
    }
}

/// The storage interface: its methods and signals, as the typed client calls
/// and receives them.
pub fn storage() -> (r: InterfaceSpec)
    ensures
        r@ == storage_contract(),
{
    let a0: Vec<ArgSpec> = vec![arg(ArgDirection::Out, "a(sssssssussbbb)")];
    assert(a0@.map_values(|a: ArgSpec| a@) =~= seq![out_arg("a(sssssssussbbb)"@)]);
    let m0 = member(MemberKind::Method, "ListVolumes", a0);
    let a1: Vec<ArgSpec> = vec![arg(ArgDirection::In, "s")];
    assert(a1@.map_values(|a: ArgSpec| a@) =~= seq![in_arg("s"@)]);
    let m1 = member(MemberKind::Method, "Mount", a1);
    let a2: Vec<ArgSpec> = vec![arg(ArgDirection::In, "s")];
    assert(a2@.map_values(|a: ArgSpec| a@) =~= seq![in_arg("s"@)]);
    let m2 = member(MemberKind::Method, "Unmount", a2);
    let r = interface(STORAGE_INTERFACE, vec![m0, m1, m2]);
    assert(r@.members =~= storage_contract().members);
    r
}

/// The contract of the users interface.
pub open spec fn users_contract() -> InterfaceView {
    InterfaceView {
        name: USERS_INTERFACE@,
        members: seq![
            method_member("ListUsers"@, seq![out_arg("a(sb)"@)]),
            method_member("CreateUser"@, seq![in_arg("s"@), in_arg("b"@)]),
            method_member("RemoveUser"@, seq![in_arg("s"@)]),
            method_member("SetAdmin"@, seq![in_arg("s"@), in_arg("b"@)]),
        ],
    }
}

/// The users interface: its methods and signals, as the typed client calls
/// and receives them.
pub fn users() -> (r: InterfaceSpec)
    ensures
        r@ == users_contract(),
{
    let a0: Vec<ArgSpec> = vec![arg(ArgDirection::Out, "a(sb)")];
    assert(a0@.map_values(|a: ArgSpec| a@) =~= seq![out_arg("a(sb)"@)]);
    let m0 = member(MemberKind::Method, "ListUsers", a0);
    let a1: Vec<ArgSpec> = vec![arg(ArgDirection::In, "s"), arg(ArgDirection::In, "b")];
    assert(a1@.map_values(|a: ArgSpec| a@) =~= seq![in_arg("s"@), in_arg("b"@)]);
    let m1 = member(MemberKind::Method, "CreateUser", a1);
    let a2: Vec<ArgSpec> = vec![arg(ArgDirection::In, "s")];
    assert(a2@.map_values(|a: ArgSpec| a@) =~= seq![in_arg("s"@)]);
    let m2 = member(MemberKind::Method, "RemoveUser", a2);
    let a3: Vec<ArgSpec> = vec![arg(ArgDirection::In, "s"), arg(ArgDirection::In, "b")];
    assert(a3@.map_values(|a: ArgSpec| a@) =~= seq![in_arg("s"@), in_arg("b"@)]);
    let m3 = member(MemberKind::Method, "SetAdmin", a3);
    let r = interface(USERS_INTERFACE, vec![m0, m1, m2, m3]);
    assert(r@.members =~= users_contract().members);
    r
}

} // verus!
