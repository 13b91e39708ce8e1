//! The catalogue of supported Minecraft Java releases.

use vstd::prelude::*;
use vstd::string::StringExecFns;

use crate::text::same_text;

verus! {

/// What a client has to send to log in.
#[derive(Clone, Copy, Debug, PartialEq, Eq, Structural)]
pub enum InitialProtocol {
    /// A name, and an identifier if it likes.
    OptionalUuid,
    /// A name and an identifier.
    RequiredUuid,
    /// A name and an identifier; it may also come by transfer from another server.
    RequiredUuidAndTransfer,
}

/// A supported release.
#[derive(Clone, Copy, Debug, PartialEq, Eq)]
pub struct MinecraftVersion {
    name: &'static str,
    protocol: i32,
    initial_protocol: InitialProtocol,
}

/// A [`MinecraftVersion`] with its name as a sequence of characters.
pub struct Release {
    pub name: Seq<char>,
    pub protocol: i32,
    pub initial_protocol: InitialProtocol,
}

/// A release of the catalogue.
pub open spec fn release(name: Seq<char>, protocol: i32, initial_protocol: InitialProtocol)
    -> Release {
    Release { name, protocol, initial_protocol }
}

impl View for MinecraftVersion {
    type V = Release;

    closed spec fn view(&self) -> Release {
        release(self.name@, self.protocol, self.initial_protocol)
    }
}

/// The supported releases in the order in which they came out; the last one is the default.
pub open spec fn catalogue() -> Seq<Release> {
    seq![
        release("1.20.1"@, 763, InitialProtocol::OptionalUuid),
        release("1.20.2"@, 764, InitialProtocol::RequiredUuid),
        release("1.20.3"@, 765, InitialProtocol::RequiredUuid),
        release("1.20.4"@, 765, InitialProtocol::RequiredUuid),
        release("1.20.5"@, 766, InitialProtocol::RequiredUuidAndTransfer),
        release("1.20.6"@, 766, InitialProtocol::RequiredUuidAndTransfer),
        release("1.21"@, 767, InitialProtocol::RequiredUuidAndTransfer),
        release("1.21.1"@, 767, InitialProtocol::RequiredUuidAndTransfer),
        release("1.21.2"@, 768, InitialProtocol::RequiredUuidAndTransfer),
        release("1.21.3"@, 768, InitialProtocol::RequiredUuidAndTransfer),
        release("1.21.4"@, 769, InitialProtocol::RequiredUuidAndTransfer),
        release("1.21.5"@, 770, InitialProtocol::RequiredUuidAndTransfer),
        release("1.21.6"@, 771, InitialProtocol::RequiredUuidAndTransfer),
        release("1.21.7"@, 772, InitialProtocol::RequiredUuidAndTransfer),
        release("1.21.8"@, 772, InitialProtocol::RequiredUuidAndTransfer),
        release("1.21.9"@, 773, InitialProtocol::RequiredUuidAndTransfer),
        release("1.21.10"@, 773, InitialProtocol::RequiredUuidAndTransfer),
        release("1.21.11"@, 774, InitialProtocol::RequiredUuidAndTransfer),
        release("26.1"@, 775, InitialProtocol::RequiredUuidAndTransfer),
        release("26.1.1"@, 775, InitialProtocol::RequiredUuidAndTransfer),
        release("26.1.2"@, 775, InitialProtocol::RequiredUuidAndTransfer),
        release("26.2"@, 776, InitialProtocol::RequiredUuidAndTransfer),
    ]
}

impl MinecraftVersion {
    /// Protocols have numbers from zero on.
    #[verifier::type_invariant]
    spec fn numbered(self) -> bool {
        self.protocol >= 0
    }

    /// A release of the catalogue.
    fn new(name: &'static str, protocol: i32, initial_protocol: InitialProtocol) -> (version:
        MinecraftVersion)
        requires
            protocol >= 0,
        ensures
            version@ == release(name@, protocol, initial_protocol),
    {
        MinecraftVersion { name, protocol, initial_protocol }
    }

    /// The name of the release.
    pub fn name(self) -> (name: &'static str)
        ensures
            name@ == self@.name,
    {
        self.name
    }

    /// The number of its protocol.
    pub fn protocol(self) -> (protocol: i32)
        ensures
            protocol == self@.protocol,
            protocol >= 0,
    {
        proof {
            use_type_invariant(self);
        }
        self.protocol
    }

    /// What its clients have to send to log in.
    pub fn initial_protocol(self) -> (initial_protocol: InitialProtocol)
        ensures
            initial_protocol == self@.initial_protocol,
    {
        self.initial_protocol
    }

    /// The catalogue.
    pub fn supported() -> (versions: Vec<MinecraftVersion>)
        ensures
            versions@.len() == catalogue().len(),
            forall|i: int| 0 <= i < catalogue().len() ==> (#[trigger] versions@[i])@
                == catalogue()[i],
    {
        supported_versions()
    }

    /// The last release of the catalogue.
    pub fn latest() -> (version: MinecraftVersion)
        ensures
            version@ == catalogue().last(),
    {
        let versions = MinecraftVersion::supported();
        versions[versions.len() - 1]
    }

    /// The release of the given name.
    pub fn from_name(name: &str) -> (version: Option<MinecraftVersion>)
        ensures
            version matches Some(found) ==> found@.name == name@ && catalogue().contains(found@),
            version is None ==> forall|i: int|
                0 <= i < catalogue().len() ==> (#[trigger] catalogue()[i]).name != name@,
            name@ == "1.20.1"@ ==> (version matches Some(found) && found@.protocol == 763),
            name@ == "1.20.2"@ ==> (version matches Some(found) && found@.protocol == 764),
            name@ == "1.20.3"@ ==> (version matches Some(found) && found@.protocol == 765),
            name@ == "1.20.4"@ ==> (version matches Some(found) && found@.protocol == 765),
            name@ == "1.20.5"@ ==> (version matches Some(found) && found@.protocol == 766),
            name@ == "1.20.6"@ ==> (version matches Some(found) && found@.protocol == 766),
            name@ == "1.21"@ ==> (version matches Some(found) && found@.protocol == 767),
            name@ == "1.21.1"@ ==> (version matches Some(found) && found@.protocol == 767),
            name@ == "1.21.2"@ ==> (version matches Some(found) && found@.protocol == 768),
            name@ == "1.21.3"@ ==> (version matches Some(found) && found@.protocol == 768),
            name@ == "1.21.4"@ ==> (version matches Some(found) && found@.protocol == 769),
            name@ == "1.21.5"@ ==> (version matches Some(found) && found@.protocol == 770),
            name@ == "1.21.6"@ ==> (version matches Some(found) && found@.protocol == 771),
            name@ == "1.21.7"@ ==> (version matches Some(found) && found@.protocol == 772),
            name@ == "1.21.8"@ ==> (version matches Some(found) && found@.protocol == 772),
            name@ == "1.21.9"@ ==> (version matches Some(found) && found@.protocol == 773),
            name@ == "1.21.10"@ ==> (version matches Some(found) && found@.protocol == 773),
            name@ == "1.21.11"@ ==> (version matches Some(found) && found@.protocol == 774),
            name@ == "26.1"@ ==> (version matches Some(found) && found@.protocol == 775),
            name@ == "26.1.1"@ ==> (version matches Some(found) && found@.protocol == 775),
            name@ == "26.1.2"@ ==> (version matches Some(found) && found@.protocol == 775),
            name@ == "26.2"@ ==> (version matches Some(found) && found@.protocol == 776),
    {
        let versions = MinecraftVersion::supported();
        let mut i: usize = 0;
        while i < versions.len()
            invariant
                i <= versions.len(),
                versions@.len() == catalogue().len(),
                forall|j: int| 0 <= j < catalogue().len() ==> (#[trigger] versions@[j])@
                    == catalogue()[j],
                forall|j: int|
                    0 <= j < i ==> (#[trigger] catalogue()[j]).name != name@,
            decreases versions.len() - i,
        {
            assert(versions@[i as int]@ == catalogue()[i as int]);
            if same_text(versions[i].name(), name) {
                proof {
                    protocols_go_by_names(catalogue()[i as int]);
                }
                return Some(versions[i]);
            }
            i += 1;
        }
        proof {
            lemma_named_releases_are_there(name@);
        }
        None
    }
}

fn supported_versions() -> (versions: Vec<MinecraftVersion>)
    ensures
        versions@.len() == catalogue().len(),
        forall|i: int| 0 <= i < catalogue().len() ==> (#[trigger] versions@[i])@ == catalogue()[i],
{
    let mut versions: Vec<MinecraftVersion> = Vec::new();
    versions.push(MinecraftVersion::new("1.20.1", 763, InitialProtocol::OptionalUuid));
    versions.push(MinecraftVersion::new("1.20.2", 764, InitialProtocol::RequiredUuid));
    versions.push(MinecraftVersion::new("1.20.3", 765, InitialProtocol::RequiredUuid));
    versions.push(MinecraftVersion::new("1.20.4", 765, InitialProtocol::RequiredUuid));
    versions.push(MinecraftVersion::new("1.20.5", 766, InitialProtocol::RequiredUuidAndTransfer));
    versions.push(MinecraftVersion::new("1.20.6", 766, InitialProtocol::RequiredUuidAndTransfer));
    versions.push(MinecraftVersion::new("1.21", 767, InitialProtocol::RequiredUuidAndTransfer));
    versions.push(MinecraftVersion::new("1.21.1", 767, InitialProtocol::RequiredUuidAndTransfer));
    versions.push(MinecraftVersion::new("1.21.2", 768, InitialProtocol::RequiredUuidAndTransfer));
    versions.push(MinecraftVersion::new("1.21.3", 768, InitialProtocol::RequiredUuidAndTransfer));
    versions.push(MinecraftVersion::new("1.21.4", 769, InitialProtocol::RequiredUuidAndTransfer));
    versions.push(MinecraftVersion::new("1.21.5", 770, InitialProtocol::RequiredUuidAndTransfer));
    versions.push(MinecraftVersion::new("1.21.6", 771, InitialProtocol::RequiredUuidAndTransfer));
    versions.push(MinecraftVersion::new("1.21.7", 772, InitialProtocol::RequiredUuidAndTransfer));
    versions.push(MinecraftVersion::new("1.21.8", 772, InitialProtocol::RequiredUuidAndTransfer));
    versions.push(MinecraftVersion::new("1.21.9", 773, InitialProtocol::RequiredUuidAndTransfer));
    versions.push(MinecraftVersion::new("1.21.10", 773, InitialProtocol::RequiredUuidAndTransfer));
    versions.push(MinecraftVersion::new("1.21.11", 774, InitialProtocol::RequiredUuidAndTransfer));
    versions.push(MinecraftVersion::new("26.1", 775, InitialProtocol::RequiredUuidAndTransfer));
    versions.push(MinecraftVersion::new("26.1.1", 775, InitialProtocol::RequiredUuidAndTransfer));
    versions.push(MinecraftVersion::new("26.1.2", 775, InitialProtocol::RequiredUuidAndTransfer));
    versions.push(MinecraftVersion::new("26.2", 776, InitialProtocol::RequiredUuidAndTransfer));
    versions
}

/// The texts of the catalogue with commas between them.
pub open spec fn names_listed(count: int) -> Seq<char>
    decreases count,
{
    if count <= 0 {
        Seq::empty()
    } else if count == 1 {
        catalogue()[0].name
    } else {
        names_listed(count - 1) + ", "@ + catalogue()[count - 1].name
    }
}

/// The names of all supported releases, for a message.
pub fn supported_names() -> (names: String)
    ensures
        names@ == names_listed(catalogue().len() as int),
{
    let versions = MinecraftVersion::supported();
    let mut names = String::new();
    let mut i: usize = 0;
    while i < versions.len()
        invariant
            i <= versions.len(),
            versions@.len() == catalogue().len(),
            forall|j: int| 0 <= j < catalogue().len() ==> (#[trigger] versions@[j])@
                == catalogue()[j],
            names@ == names_listed(i as int),
        decreases versions.len() - i,
    {
        assert(versions@[i as int]@ == catalogue()[i as int]);
        if i > 0 {
            names.append(", ");
        }
        names.append(versions[i].name());
        assert(names@ =~= names_listed(i + 1));
        i += 1;
    }
    names
}

/// The catalogue is in the order of protocols.
pub proof fn catalogue_is_ordered(earlier: int, later: int)
    requires
        0 <= earlier <= later < catalogue().len(),
    ensures
        catalogue()[earlier].protocol <= catalogue()[later].protocol,
{
}

/// What a client has to send to log in follows from the number of the protocol.
pub proof fn initial_protocol_follows_the_number(index: int)
    requires
        0 <= index < catalogue().len(),
    ensures
        ({
            let entry = catalogue()[index];
            entry.initial_protocol == (if entry.protocol == 763 {
                InitialProtocol::OptionalUuid
            } else if entry.protocol <= 765 {
                InitialProtocol::RequiredUuid
            } else {
                InitialProtocol::RequiredUuidAndTransfer
            })
        }),
{
}

/// No two releases of the catalogue have the same name.
#[verifier::rlimit(100)]
#[verifier::spinoff_prover]
pub proof fn catalogue_names_are_unique(earlier: int, later: int)
    requires
        0 <= earlier < later < catalogue().len(),
    ensures
        catalogue()[earlier].name != catalogue()[later].name,
{
    reveal_strlit("1.20.1");
    reveal_strlit("1.20.2");
    reveal_strlit("1.20.3");
    reveal_strlit("1.20.4");
    reveal_strlit("1.20.5");
    reveal_strlit("1.20.6");
    reveal_strlit("1.21");
    reveal_strlit("1.21.1");
    reveal_strlit("1.21.2");
    reveal_strlit("1.21.3");
    reveal_strlit("1.21.4");
    reveal_strlit("1.21.5");
    reveal_strlit("1.21.6");
    reveal_strlit("1.21.7");
    reveal_strlit("1.21.8");
    reveal_strlit("1.21.9");
    reveal_strlit("1.21.10");
    reveal_strlit("1.21.11");
    reveal_strlit("26.1");
    reveal_strlit("26.1.1");
    reveal_strlit("26.1.2");
    reveal_strlit("26.2");
    let left = catalogue()[earlier].name;
    let right = catalogue()[later].name;
    assert(left.len() != right.len() || exists|i: int|
        0 <= i < left.len() && #[trigger] left[i] != right[i]) by {
        if left.len() == right.len() {
            assert(left[left.len() - 1] != right[left.len() - 1] || left[left.len() - 2]
                != right[left.len() - 2] || left[left.len() - 3] != right[left.len() - 3]
                || left[0] != right[0] || left[1] != right[1]);
        }
    }
}

/// Every name of the catalogue stands in it.
proof fn lemma_named_releases_are_there(name: Seq<char>)
    requires
        forall|i: int| 0 <= i < catalogue().len() ==> (#[trigger] catalogue()[i]).name != name,
    ensures
        name != "1.20.1"@,
        name != "1.20.2"@,
        name != "1.20.3"@,
        name != "1.20.4"@,
        name != "1.20.5"@,
        name != "1.20.6"@,
        name != "1.21"@,
        name != "1.21.1"@,
        name != "1.21.2"@,
        name != "1.21.3"@,
        name != "1.21.4"@,
        name != "1.21.5"@,
        name != "1.21.6"@,
        name != "1.21.7"@,
        name != "1.21.8"@,
        name != "1.21.9"@,
        name != "1.21.10"@,
        name != "1.21.11"@,
        name != "26.1"@,
        name != "26.1.1"@,
        name != "26.1.2"@,
        name != "26.2"@,
{
    assert(catalogue()[0].name == "1.20.1"@);
    assert(catalogue()[1].name == "1.20.2"@);
    assert(catalogue()[2].name == "1.20.3"@);
    assert(catalogue()[3].name == "1.20.4"@);
    assert(catalogue()[4].name == "1.20.5"@);
    assert(catalogue()[5].name == "1.20.6"@);
    assert(catalogue()[6].name == "1.21"@);
    assert(catalogue()[7].name == "1.21.1"@);
    assert(catalogue()[8].name == "1.21.2"@);
    assert(catalogue()[9].name == "1.21.3"@);
    assert(catalogue()[10].name == "1.21.4"@);
    assert(catalogue()[11].name == "1.21.5"@);
    assert(catalogue()[12].name == "1.21.6"@);
    assert(catalogue()[13].name == "1.21.7"@);
    assert(catalogue()[14].name == "1.21.8"@);
    assert(catalogue()[15].name == "1.21.9"@);
    assert(catalogue()[16].name == "1.21.10"@);
    assert(catalogue()[17].name == "1.21.11"@);
    assert(catalogue()[18].name == "26.1"@);
    assert(catalogue()[19].name == "26.1.1"@);
    assert(catalogue()[20].name == "26.1.2"@);
    assert(catalogue()[21].name == "26.2"@);
}

/// The name of a release decides the protocol that its clients speak.
pub proof fn protocols_go_by_names(entry: Release)
    requires
        catalogue().contains(entry),
    ensures
        entry.name == "1.20.1"@ ==> entry.protocol == 763,
        entry.name == "1.20.2"@ ==> entry.protocol == 764,
        entry.name == "1.20.3"@ ==> entry.protocol == 765,
        entry.name == "1.20.4"@ ==> entry.protocol == 765,
        entry.name == "1.20.5"@ ==> entry.protocol == 766,
        entry.name == "1.20.6"@ ==> entry.protocol == 766,
        entry.name == "1.21"@ ==> entry.protocol == 767,
        entry.name == "1.21.1"@ ==> entry.protocol == 767,
        entry.name == "1.21.2"@ ==> entry.protocol == 768,
        entry.name == "1.21.3"@ ==> entry.protocol == 768,
        entry.name == "1.21.4"@ ==> entry.protocol == 769,
        entry.name == "1.21.5"@ ==> entry.protocol == 770,
        entry.name == "1.21.6"@ ==> entry.protocol == 771,
        entry.name == "1.21.7"@ ==> entry.protocol == 772,
        entry.name == "1.21.8"@ ==> entry.protocol == 772,
        entry.name == "1.21.9"@ ==> entry.protocol == 773,
        entry.name == "1.21.10"@ ==> entry.protocol == 773,
        entry.name == "1.21.11"@ ==> entry.protocol == 774,
        entry.name == "26.1"@ ==> entry.protocol == 775,
        entry.name == "26.1.1"@ ==> entry.protocol == 775,
        entry.name == "26.1.2"@ ==> entry.protocol == 775,
        entry.name == "26.2"@ ==> entry.protocol == 776,
{
    let at = choose|at: int| 0 <= at < catalogue().len() && catalogue()[at] == entry;
    assert forall|other: int| 0 <= other < catalogue().len() && (#[trigger] catalogue()[other]).name
        == entry.name implies other == at by {
        if other < at {
            catalogue_names_are_unique(other, at);
        }
        if at < other {
            catalogue_names_are_unique(at, other);
        }
    }
    assert(catalogue()[0].name == "1.20.1"@ && catalogue()[0].protocol == 763);
    assert(catalogue()[1].name == "1.20.2"@ && catalogue()[1].protocol == 764);
    assert(catalogue()[2].name == "1.20.3"@ && catalogue()[2].protocol == 765);
    assert(catalogue()[3].name == "1.20.4"@ && catalogue()[3].protocol == 765);
    assert(catalogue()[4].name == "1.20.5"@ && catalogue()[4].protocol == 766);
    assert(catalogue()[5].name == "1.20.6"@ && catalogue()[5].protocol == 766);
    assert(catalogue()[6].name == "1.21"@ && catalogue()[6].protocol == 767);
    assert(catalogue()[7].name == "1.21.1"@ && catalogue()[7].protocol == 767);
    assert(catalogue()[8].name == "1.21.2"@ && catalogue()[8].protocol == 768);
    assert(catalogue()[9].name == "1.21.3"@ && catalogue()[9].protocol == 768);
    assert(catalogue()[10].name == "1.21.4"@ && catalogue()[10].protocol == 769);
    assert(catalogue()[11].name == "1.21.5"@ && catalogue()[11].protocol == 770);
    assert(catalogue()[12].name == "1.21.6"@ && catalogue()[12].protocol == 771);
    assert(catalogue()[13].name == "1.21.7"@ && catalogue()[13].protocol == 772);
    assert(catalogue()[14].name == "1.21.8"@ && catalogue()[14].protocol == 772);
    assert(catalogue()[15].name == "1.21.9"@ && catalogue()[15].protocol == 773);
    assert(catalogue()[16].name == "1.21.10"@ && catalogue()[16].protocol == 773);
    assert(catalogue()[17].name == "1.21.11"@ && catalogue()[17].protocol == 774);
    assert(catalogue()[18].name == "26.1"@ && catalogue()[18].protocol == 775);
    assert(catalogue()[19].name == "26.1.1"@ && catalogue()[19].protocol == 775);
    assert(catalogue()[20].name == "26.1.2"@ && catalogue()[20].protocol == 775);
    assert(catalogue()[21].name == "26.2"@ && catalogue()[21].protocol == 776);
}

/// The catalogue holds these releases and no others.
pub proof fn no_other_releases_are_supported(entry: Release)
    requires
        catalogue().contains(entry),
    ensures
        entry.name == "1.20.1"@ || entry.name == "1.20.2"@ || entry.name == "1.20.3"@
            || entry.name == "1.20.4"@ || entry.name == "1.20.5"@ || entry.name == "1.20.6"@
            || entry.name == "1.21"@ || entry.name == "1.21.1"@ || entry.name == "1.21.2"@
            || entry.name == "1.21.3"@ || entry.name == "1.21.4"@ || entry.name == "1.21.5"@
            || entry.name == "1.21.6"@ || entry.name == "1.21.7"@ || entry.name == "1.21.8"@
            || entry.name == "1.21.9"@ || entry.name == "1.21.10"@ || entry.name == "1.21.11"@
            || entry.name == "26.1"@ || entry.name == "26.1.1"@ || entry.name == "26.1.2"@
            || entry.name == "26.2"@,
{
    let at = choose|at: int| 0 <= at < catalogue().len() && catalogue()[at] == entry;
}

/// The supported releases are told by name in their order, with commas between them.
pub proof fn supported_releases_are_told(count: int)
    requires
        0 < count < catalogue().len(),
    ensures
        names_listed(count + 1) == names_listed(count) + ", "@ + catalogue()[count].name,
        names_listed(1) == catalogue()[0].name,
{
}

} // verus!
