//! Network interfaces through sysfs: the link type codes, and the settings
//! of an interface from the values of its attribute files.

use vstd::prelude::*;

verus! {

/// Name of the network class directory under `/sys/class`.
pub const NET_CLASS: &'static str = "net";

/// The attributes of a physical network interface, as its sysfs files
/// give them.
#[derive(Debug)]
pub struct DeviceSettings {
    pub name: String,
    pub mac_address: String,
    pub interface_index: String,
    pub mtu: String,
    pub state: String,
    pub duplex: String,
    pub speed: String,
    pub carrier: String,
    pub carrier_changes: String,
    pub wireless: bool,
    pub flags: String,
}

/// The link type of an interface (the ARPHRD code in its `type` file).
#[derive(Debug, PartialEq, Eq, Copy, Clone, Structural)]
pub enum NetType {
    Unknown,
    Ethernet,
    ExEthernet,
    AmateurRadio,
    ProNet,
    Chaos,
    IEEE802,
    ARCnet,
    AppleTalk,
    DataLinkConnectionIdentifier,
    AsyncTransferMode,
    MetricomStrip,
    /// Firewire
    IEEE1394,
    EUI64,
    InfiniBand,
    Loopback,
}

/// The link type that the text of a `type` file names: one of the codes
/// 1 to 8, 15, 19, 23, 24, 27, 32 or 772, written exactly so; anything
/// else is `Unknown`.
pub open spec fn net_type_of(s: Seq<char>) -> NetType {
    if s == "1"@ {
        NetType::Ethernet
    } else if s == "2"@ {
        NetType::ExEthernet
    } else if s == "3"@ {
        NetType::AmateurRadio
    } else if s == "4"@ {
        NetType::ProNet
    } else if s == "5"@ {
        NetType::Chaos
    } else if s == "6"@ {
        NetType::IEEE802
    } else if s == "7"@ {
        NetType::ARCnet
    } else if s == "8"@ {
        NetType::AppleTalk
    } else if s == "15"@ {
        NetType::DataLinkConnectionIdentifier
    } else if s == "19"@ {
        NetType::AsyncTransferMode
    } else if s == "23"@ {
        NetType::MetricomStrip
    } else if s == "24"@ {
        NetType::IEEE1394
    } else if s == "27"@ {
        NetType::EUI64
    } else if s == "32"@ {
        NetType::InfiniBand
    } else if s == "772"@ {
        NetType::Loopback
    } else {
        NetType::Unknown
    }
}

/// The numeric code of each link type.
pub open spec fn net_type_code(t: NetType) -> u16 {
    match t {
        NetType::Unknown => 0,
        NetType::Ethernet => 1,
        NetType::ExEthernet => 2,
        NetType::AmateurRadio => 3,
        NetType::ProNet => 4,
        NetType::Chaos => 5,
        NetType::IEEE802 => 6,
        NetType::ARCnet => 7,
        NetType::AppleTalk => 8,
        NetType::DataLinkConnectionIdentifier => 15,
        NetType::AsyncTransferMode => 19,
        NetType::MetricomStrip => 23,
        NetType::IEEE1394 => 24,
        NetType::EUI64 => 27,
        NetType::InfiniBand => 32,
        NetType::Loopback => 772,
    }
}

proof fn lemma_code_text(s: Seq<char>, d0: char, rest: Seq<char>, v: nat)
    requires
        s == seq![d0] + rest,
        rest.len() <= 2,
        crate::text::is_digit(d0),
        forall|i: int| 0 <= i < rest.len() ==> crate::text::is_digit(#[trigger] rest[i]),
        d0 != '+',
        v == crate::text::decimal_value(s),
        v <= u16::MAX,
    ensures
        crate::text::parse_unsigned(s, u16::MAX as nat) == Some(v),
{
    assert(crate::text::unsigned_digits(s) == s);
    assert forall|i: int| 0 <= i < s.len() implies crate::text::is_digit(#[trigger] s[i]) by {
        if i > 0 {
            assert(s[i] == rest[i - 1]);
        }
    }
}

/// The text of a `type` file that names a link type is that type's code,
/// written in decimal.
pub proof fn law_type_text_is_code(s: Seq<char>)
    requires
        net_type_of(s) != NetType::Unknown,
    ensures
        crate::text::parse_unsigned(s, u16::MAX as nat) == Some(net_type_code(net_type_of(s)) as nat),
{
    reveal_strlit("1");
    reveal_strlit("2");
    reveal_strlit("3");
    reveal_strlit("4");
    reveal_strlit("5");
    reveal_strlit("6");
    reveal_strlit("7");
    reveal_strlit("8");
    reveal_strlit("15");
    reveal_strlit("19");
    reveal_strlit("23");
    reveal_strlit("24");
    reveal_strlit("27");
    reveal_strlit("32");
    reveal_strlit("772");
    let e = Seq::<char>::empty();
    assert(crate::text::decimal_value(e) == 0);
    let one = |c: char| seq![c];
    assert forall|c: char| 48 <= (c as u32) <= 57 implies crate::text::decimal_value(#[trigger] one(c))
        == (c as u32) - 48 by {
        assert(one(c).drop_last() =~= e);
    }
    assert forall|a: char, b: char|
        48 <= (a as u32) <= 57 && 48 <= (b as u32) <= 57 implies crate::text::decimal_value(
        #[trigger] seq![a, b],
    ) == ((a as u32) - 48) * 10 + (b as u32) - 48 by {
        assert(seq![a, b].drop_last() =~= one(a));
    }
    if s == "772"@ {
        let two = seq!['7', '7'];
        assert(s.drop_last() =~= two);
        assert(crate::text::decimal_value(two) == 77);
        assert(s.last() == '2');
        assert(s =~= seq!['7'] + seq!['7', '2']);
        lemma_code_text(s, '7', seq!['7', '2'], 772);
    } else if s.len() == 1 {
        assert(s =~= one(s[0]));
        assert(s =~= seq![s[0]] + e);
        lemma_code_text(s, s[0], e, crate::text::decimal_value(s));
    } else {
        assert(s.len() == 2);
        assert(s =~= seq![s[0], s[1]]);
        assert(s =~= seq![s[0]] + seq![s[1]]);
        lemma_code_text(s, s[0], seq![s[1]], crate::text::decimal_value(s));
    }
}

/// Each link type's code, written in decimal, is the text of a `type` file
/// that names that link type (for `Unknown`, "0").
pub proof fn law_code_text_names_type(t: NetType)
    ensures
        net_type_of(crate::text::decimal_text(net_type_code(t) as nat)) == t,
{
    reveal_strlit("1");
    reveal_strlit("2");
    reveal_strlit("3");
    reveal_strlit("4");
    reveal_strlit("5");
    reveal_strlit("6");
    reveal_strlit("7");
    reveal_strlit("8");
    reveal_strlit("15");
    reveal_strlit("19");
    reveal_strlit("23");
    reveal_strlit("24");
    reveal_strlit("27");
    reveal_strlit("32");
    reveal_strlit("772");
    reveal_with_fuel(crate::text::decimal_text, 3);
    let d = |n: nat| crate::text::digit_char(n);
    assert(d(0) == '0' && d(1) == '1' && d(2) == '2' && d(3) == '3' && d(4) == '4');
    assert(d(5) == '5' && d(6) == '6' && d(7) == '7' && d(8) == '8' && d(9) == '9');
    let s = crate::text::decimal_text(net_type_code(t) as nat);
    match t {
        NetType::Unknown => {
            assert(s =~= seq!['0']);
            assert(s[0] != "1"@[0]);
            assert(s[0] != "2"@[0]);
            assert(s[0] != "3"@[0]);
            assert(s[0] != "4"@[0]);
            assert(s[0] != "5"@[0]);
            assert(s[0] != "6"@[0]);
            assert(s[0] != "7"@[0]);
            assert(s[0] != "8"@[0]);
        },
        NetType::Ethernet => {
            assert(s =~= seq!['1']);
            assert(s =~= "1"@);
        },
        NetType::ExEthernet => {
            assert(s =~= seq!['2']);
            assert(s[0] != "1"@[0]);
            assert(s =~= "2"@);
        },
        NetType::AmateurRadio => {
            assert(s =~= seq!['3']);
            assert(s[0] != "1"@[0]);
            assert(s[0] != "2"@[0]);
            assert(s =~= "3"@);
        },
        NetType::ProNet => {
            assert(s =~= seq!['4']);
            assert(s[0] != "1"@[0]);
            assert(s[0] != "2"@[0]);
            assert(s[0] != "3"@[0]);
            assert(s =~= "4"@);
        },
        NetType::Chaos => {
            assert(s =~= seq!['5']);
            assert(s[0] != "1"@[0]);
            assert(s[0] != "2"@[0]);
            assert(s[0] != "3"@[0]);
            assert(s[0] != "4"@[0]);
            assert(s =~= "5"@);
        },
        NetType::IEEE802 => {
            assert(s =~= seq!['6']);
            assert(s[0] != "1"@[0]);
            assert(s[0] != "2"@[0]);
            assert(s[0] != "3"@[0]);
            assert(s[0] != "4"@[0]);
            assert(s[0] != "5"@[0]);
            assert(s =~= "6"@);
        },
        NetType::ARCnet => {
            assert(s =~= seq!['7']);
            assert(s[0] != "1"@[0]);
            assert(s[0] != "2"@[0]);
            assert(s[0] != "3"@[0]);
            assert(s[0] != "4"@[0]);
            assert(s[0] != "5"@[0]);
            assert(s[0] != "6"@[0]);
            assert(s =~= "7"@);
        },
        NetType::AppleTalk => {
            assert(s =~= seq!['8']);
            assert(s[0] != "1"@[0]);
            assert(s[0] != "2"@[0]);
            assert(s[0] != "3"@[0]);
            assert(s[0] != "4"@[0]);
            assert(s[0] != "5"@[0]);
            assert(s[0] != "6"@[0]);
            assert(s[0] != "7"@[0]);
            assert(s =~= "8"@);
        },
        NetType::DataLinkConnectionIdentifier => {
            assert(s =~= seq!['1', '5']);
            assert(s =~= "15"@);
        },
        NetType::AsyncTransferMode => {
            assert(s =~= seq!['1', '9']);
            assert(s[1] != "15"@[1]);
            assert(s =~= "19"@);
        },
        NetType::MetricomStrip => {
            assert(s =~= seq!['2', '3']);
            assert(s[0] != "15"@[0]);
            assert(s[0] != "19"@[0]);
            assert(s =~= "23"@);
        },
        NetType::IEEE1394 => {
            assert(s =~= seq!['2', '4']);
            assert(s[0] != "15"@[0]);
            assert(s[0] != "19"@[0]);
            assert(s[1] != "23"@[1]);
            assert(s =~= "24"@);
        },
        NetType::EUI64 => {
            assert(s =~= seq!['2', '7']);
            assert(s[0] != "15"@[0]);
            assert(s[0] != "19"@[0]);
            assert(s[1] != "23"@[1]);
            assert(s[1] != "24"@[1]);
            assert(s =~= "27"@);
        },
        NetType::InfiniBand => {
            assert(s =~= seq!['3', '2']);
            assert(s[0] != "15"@[0]);
            assert(s[0] != "19"@[0]);
            assert(s[0] != "23"@[0]);
            assert(s[0] != "24"@[0]);
            assert(s[0] != "27"@[0]);
            assert(s =~= "32"@);
        },
        NetType::Loopback => {
            assert(s =~= seq!['7', '7', '2']);
            assert(s =~= "772"@);
        },
    }
}

fn text_is(s: &String, lit: &str) -> (r: bool)
    ensures
        r == (s@ == lit@),
{
    *s == lit.to_owned()
}

impl<'a> From<&'a str> for NetType {
    fn from(s: &'a str) -> (r: NetType) {
        let t = s.to_owned();
        if text_is(&t, "1") {
            NetType::Ethernet
        } else if text_is(&t, "2") {
            NetType::ExEthernet
        } else if text_is(&t, "3") {
            NetType::AmateurRadio
        } else if text_is(&t, "4") {
            NetType::ProNet
        } else if text_is(&t, "5") {
            NetType::Chaos
        } else if text_is(&t, "6") {
            NetType::IEEE802
        } else if text_is(&t, "7") {
            NetType::ARCnet
        } else if text_is(&t, "8") {
            NetType::AppleTalk
        } else if text_is(&t, "15") {
            NetType::DataLinkConnectionIdentifier
        } else if text_is(&t, "19") {
            NetType::AsyncTransferMode
        } else if text_is(&t, "23") {
            NetType::MetricomStrip
        } else if text_is(&t, "24") {
            NetType::IEEE1394
        } else if text_is(&t, "27") {
            NetType::EUI64
        } else if text_is(&t, "32") {
            NetType::InfiniBand
        } else if text_is(&t, "772") {
            NetType::Loopback
        } else {
            NetType::Unknown
        }
    }
}

impl<'a> vstd::std_specs::convert::FromSpecImpl<&'a str> for NetType {
    open spec fn obeys_from_spec() -> bool {
        true
    }

    open spec fn from_spec(s: &'a str) -> NetType {
        net_type_of(s@)
    }
}

impl NetType {
    /// The numeric code of the link type.
    pub fn code(&self) -> (r: u16)
        ensures
            r == net_type_code(*self),
    {
        match self {
            NetType::Unknown => 0,
            NetType::Ethernet => 1,
            NetType::ExEthernet => 2,
            NetType::AmateurRadio => 3,
            NetType::ProNet => 4,
            NetType::Chaos => 5,
            NetType::IEEE802 => 6,
            NetType::ARCnet => 7,
            NetType::AppleTalk => 8,
            NetType::DataLinkConnectionIdentifier => 15,
            NetType::AsyncTransferMode => 19,
            NetType::MetricomStrip => 23,
            NetType::IEEE1394 => 24,
            NetType::EUI64 => 27,
            NetType::InfiniBand => 32,
            NetType::Loopback => 772,
        }
    }

    /// The name of the link type, as it is displayed.
    pub fn name(&self) -> (r: &'static str)
        ensures
            r@ == match self {
                NetType::Unknown => "Unknown"@,
                NetType::Ethernet => "Ethernet"@,
                NetType::ExEthernet => "ExEthernet"@,
                NetType::AmateurRadio => "AmateurRadio"@,
                NetType::ProNet => "ProNet"@,
                NetType::Chaos => "Chaos"@,
                NetType::IEEE802 => "IEEE802"@,
                NetType::ARCnet => "ARCnet"@,
                NetType::AppleTalk => "AppleTalk"@,
                NetType::DataLinkConnectionIdentifier => "DataLinkConnectionIdentifier"@,
                NetType::AsyncTransferMode => "AsyncTransferMode"@,
                NetType::MetricomStrip => "MetricomStrip"@,
                NetType::IEEE1394 => "IEEE1394"@,
                NetType::EUI64 => "EUI64"@,
                NetType::InfiniBand => "InfiniBand"@,
                NetType::Loopback => "Loopback"@,
            },
    {
        match self {
            NetType::Unknown => "Unknown",
            NetType::Ethernet => "Ethernet",
            NetType::ExEthernet => "ExEthernet",
            NetType::AmateurRadio => "AmateurRadio",
            NetType::ProNet => "ProNet",
            NetType::Chaos => "Chaos",
            NetType::IEEE802 => "IEEE802",
            NetType::ARCnet => "ARCnet",
            NetType::AppleTalk => "AppleTalk",
            NetType::DataLinkConnectionIdentifier => "DataLinkConnectionIdentifier",
            NetType::AsyncTransferMode => "AsyncTransferMode",
            NetType::MetricomStrip => "MetricomStrip",
            NetType::IEEE1394 => "IEEE1394",
            NetType::EUI64 => "EUI64",
            NetType::InfiniBand => "InfiniBand",
            NetType::Loopback => "Loopback",
        }
    }
}

/// A network interface found under `/sys/class/net`.
#[derive(Debug)]
pub enum NetDevice {
    Physical(Box<DeviceSettings>),
    Loopback,
    Invalid(String),
}

/// Why the attribute values of an interface describe no usable device.
#[derive(Debug, PartialEq, Eq)]
pub enum NetDeviceError {
    /// The link type is neither Ethernet nor loopback; the text of the
    /// `type` file.
    InvalidType(String),
}

/// The values read from the attribute files of an interface. `duplex` and
/// `speed` are `None` where their files could not be read.
pub struct NetDeviceValues {
    pub name: String,
    pub wireless: bool,
    pub mac_address: String,
    pub interface_index: String,
    pub mtu: String,
    pub state: String,
    pub net_type: String,
    pub duplex: Option<String>,
    pub speed: Option<String>,
    pub carrier: String,
    pub carrier_changes: String,
    pub flags: String,
}

/// A value read from a file, or "unknown" where there is none.
pub open spec fn or_unknown(v: Option<String>) -> Seq<char> {
    match v {
        Some(s) => s@,
        None => "unknown"@,
    }
}

impl NetDevice {
    /// The device that the attribute values of an interface describe: an
    /// Ethernet link is a physical device with those settings (duplex and
    /// speed "unknown" where they could not be read); a loopback link is the
    /// loopback device; any other link type is refused.
    pub fn from_values(v: NetDeviceValues) -> (r: Result<NetDevice, NetDeviceError>)
        ensures
            net_type_of(v.net_type@) == NetType::Ethernet ==> (r matches Ok(NetDevice::Physical(d))
                && d.name@ == v.name@ && d.wireless == v.wireless && d.mac_address@
                == v.mac_address@ && d.interface_index@ == v.interface_index@ && d.mtu@ == v.mtu@
                && d.state@ == v.state@ && d.duplex@ == or_unknown(v.duplex) && d.speed@
                == or_unknown(v.speed) && d.carrier@ == v.carrier@ && d.carrier_changes@
                == v.carrier_changes@ && d.flags@ == v.flags@),
            net_type_of(v.net_type@) == NetType::Loopback ==> r matches Ok(NetDevice::Loopback),
            net_type_of(v.net_type@) != NetType::Ethernet && net_type_of(v.net_type@)
                != NetType::Loopback ==> (r matches Err(NetDeviceError::InvalidType(t)) && t@
                == v.net_type@),
    {
        let duplex = match v.duplex {
            Some(d) => d,
            None => "unknown".to_owned(),
        };
        let speed = match v.speed {
            Some(s) => s,
            None => "unknown".to_owned(),
        };
        match NetType::from(v.net_type.as_str()) {
            NetType::Ethernet => Ok(
                NetDevice::Physical(
                    Box::new(
                        DeviceSettings {
                            name: v.name,
                            wireless: v.wireless,
                            mac_address: v.mac_address,
                            interface_index: v.interface_index,
                            mtu: v.mtu,
                            state: v.state,
                            duplex,
                            speed,
                            carrier: v.carrier,
                            carrier_changes: v.carrier_changes,
                            flags: v.flags,
                        },
                    ),
                ),
            ),
            NetType::Loopback => Ok(NetDevice::Loopback),
            _ => Err(NetDeviceError::InvalidType(v.net_type)),
        }
    }
}

/// Lists the interfaces under `/sys/class/net`.
#[derive(Debug, Default)]
pub struct NetEnumerator {}

impl NetEnumerator {
    pub fn new() -> (r: NetEnumerator) {
        NetEnumerator {  }
    }
}

} // verus!
