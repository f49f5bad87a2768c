//! Header groups, the capabilities that switch them on, and the files that
//! each group produces.

use vstd::prelude::*;
use crate::text::spec_texts;

verus! {

/// The optional capabilities of a build; the base group needs none.
#[derive(Debug, Clone, Copy, PartialEq, Eq, Structural)]
pub struct Capabilities {
    pub distance: bool,
    pub presence: bool,
}

/// The three header groups of the SDK.
#[derive(Debug, Clone, Copy, PartialEq, Eq, Structural)]
pub enum GroupId {
    Base,
    Distance,
    Presence,
}

/// The condition under which a header group takes part in a build.
#[derive(Debug, Clone, Copy, PartialEq, Eq, Structural)]
pub enum Activation {
    Always,
    Distance,
    Presence,
}

/// The mathematical value of a [`HeaderGroup`].
pub struct HeaderGroupView {
    pub stub_file: Seq<char>,
    pub headers: Seq<Seq<char>>,
    pub activation: Activation,
}

/// A bundle of headers whose functions are stubbed together.
#[derive(Debug, Clone)]
pub struct HeaderGroup {
    /// The name of the source file synthesized for the group.
    pub stub_file: String,
    /// The headers of the group, in the order in which they are read.
    pub headers: Vec<String>,
    pub activation: Activation,
}

/// The mathematical value of a [`StubArtifact`].
pub struct ArtifactView {
    pub source: Seq<char>,
    pub object: Seq<char>,
    pub archive: Seq<char>,
}

/// The files produced for one header group, by name.
#[derive(Debug, Clone)]
pub struct StubArtifact {
    pub source: String,
    pub object: String,
    pub archive: String,
}

/// The values of the header groups in `v`, in order.
pub open spec fn spec_group_views(v: Seq<HeaderGroup>) -> Seq<HeaderGroupView> {
    Seq::new(v.len(), |i: int| v[i]@)
}

/// The values of the artifacts in `v`, in order.
pub open spec fn spec_artifact_views(v: Seq<StubArtifact>) -> Seq<ArtifactView> {
    Seq::new(v.len(), |i: int| v[i]@)
}

impl View for HeaderGroup {
    type V = HeaderGroupView;

    open spec fn view(&self) -> HeaderGroupView {
        HeaderGroupView {
            stub_file: self.stub_file@,
            headers: spec_texts(self.headers@),
            activation: self.activation,
        }
    }
}

impl View for StubArtifact {
    type V = ArtifactView;

    open spec fn view(&self) -> ArtifactView {
        ArtifactView { source: self.source@, object: self.object@, archive: self.archive@ }
    }
}

/// Whether a group with the condition `activation` takes part under `caps`.
pub open spec fn spec_is_active(activation: Activation, caps: Capabilities) -> bool {
    match activation {
        Activation::Always => true,
        Activation::Distance => caps.distance,
        Activation::Presence => caps.presence,
    }
}

/// The condition of the group `id`.
pub open spec fn spec_activation(id: GroupId) -> Activation {
    match id {
        GroupId::Base => Activation::Always,
        GroupId::Distance => Activation::Distance,
        GroupId::Presence => Activation::Presence,
    }
}

/// The groups that take part under `caps`: the base group, then the
/// distance group, then the presence group.
pub open spec fn spec_enabled_groups(caps: Capabilities) -> Seq<GroupId> {
    seq![GroupId::Base] + (if caps.distance {
        seq![GroupId::Distance]
    } else {
        Seq::empty()
    }) + (if caps.presence {
        seq![GroupId::Presence]
    } else {
        Seq::empty()
    })
}

/// The headers of the group `id`, in reading order.
pub open spec fn spec_headers(id: GroupId) -> Seq<Seq<char>> {
    match id {
        GroupId::Base => seq![
            "acc_hal_definitions_a121.h"@,
            "acc_definitions_common.h"@,
            "acc_processing.h"@,
            "acc_sensor.h"@,
            "acc_config.h"@,
            "acc_config_subsweep.h"@,
            "acc_definitions_a121.h"@,
            "acc_version.h"@,
            "acc_rss_a121.h"@,
        ],
        GroupId::Distance => seq![
            "acc_detector_distance_definitions.h"@,
            "acc_detector_distance.h"@,
        ],
        GroupId::Presence => seq!["acc_detector_presence.h"@],
    }
}

/// The files produced for the group `id`.
pub open spec fn spec_artifact(id: GroupId) -> ArtifactView {
    match id {
        GroupId::Base => ArtifactView {
            source: "acconeer_a121_stubs.c"@,
            object: "acconeer_a121_stubs.o"@,
            archive: "libacconeer_a121.a"@,
        },
        GroupId::Distance => ArtifactView {
            source: "acc_detector_distance_a121_stubs.c"@,
            object: "acc_detector_distance_a121_stubs.o"@,
            archive: "libacc_detector_distance_a121.a"@,
        },
        GroupId::Presence => ArtifactView {
            source: "acc_detector_presence_a121_stubs.c"@,
            object: "acc_detector_presence_a121_stubs.o"@,
            archive: "libacc_detector_presence_a121.a"@,
        },
    }
}

/// The name under which the linker knows the archive of the group `id`.
pub open spec fn spec_library_name(id: GroupId) -> Seq<char> {
    match id {
        GroupId::Base => "acconeer_a121"@,
        GroupId::Distance => "acc_detector_distance_a121"@,
        GroupId::Presence => "acc_detector_presence_a121"@,
    }
}

/// The header group `id`.
pub open spec fn spec_header_group(id: GroupId) -> HeaderGroupView {
    HeaderGroupView {
        stub_file: spec_artifact(id).source,
        headers: spec_headers(id),
        activation: spec_activation(id),
    }
}

impl Activation {
    /// Whether a group with this condition takes part under `caps`.
    pub fn is_active(self, caps: Capabilities) -> (r: bool)
        ensures
            r == spec_is_active(self, caps),
    {
        match self {
            Activation::Always => true,
            Activation::Distance => caps.distance,
            Activation::Presence => caps.presence,
        }
    }
}

impl GroupId {
    /// The condition under which this group takes part in a build.
    pub fn activation(self) -> (r: Activation)
        ensures
            r == spec_activation(self),
    {
        match self {
            GroupId::Base => Activation::Always,
            GroupId::Distance => Activation::Distance,
            GroupId::Presence => Activation::Presence,
        }
    }

    /// The files produced for this group.
    pub fn artifact(self) -> (r: StubArtifact)
        ensures
            r@ == spec_artifact(self),
    {
        match self {
            GroupId::Base => StubArtifact {
                source: "acconeer_a121_stubs.c".to_owned(),
                object: "acconeer_a121_stubs.o".to_owned(),
                archive: "libacconeer_a121.a".to_owned(),
            },
            GroupId::Distance => StubArtifact {
                source: "acc_detector_distance_a121_stubs.c".to_owned(),
                object: "acc_detector_distance_a121_stubs.o".to_owned(),
                archive: "libacc_detector_distance_a121.a".to_owned(),
            },
            GroupId::Presence => StubArtifact {
                source: "acc_detector_presence_a121_stubs.c".to_owned(),
                object: "acc_detector_presence_a121_stubs.o".to_owned(),
                archive: "libacc_detector_presence_a121.a".to_owned(),
            },
        }
    }

    /// The name under which the linker knows this group's archive.
    pub fn library_name(self) -> (r: String)
        ensures
            r@ == spec_library_name(self),
    {
        match self {
            GroupId::Base => "acconeer_a121".to_owned(),
            GroupId::Distance => "acc_detector_distance_a121".to_owned(),
            GroupId::Presence => "acc_detector_presence_a121".to_owned(),
        }
    }

    /// The headers of this group, in reading order.
    pub fn headers(self) -> (r: Vec<String>)
        ensures
            spec_texts(r@) == spec_headers(self),
    {
        let mut r: Vec<String> = Vec::new();
        match self {
            GroupId::Base => {
                r.push("acc_hal_definitions_a121.h".to_owned());
                r.push("acc_definitions_common.h".to_owned());
                r.push("acc_processing.h".to_owned());
                r.push("acc_sensor.h".to_owned());
                r.push("acc_config.h".to_owned());
                r.push("acc_config_subsweep.h".to_owned());
                r.push("acc_definitions_a121.h".to_owned());
                r.push("acc_version.h".to_owned());
                r.push("acc_rss_a121.h".to_owned());
            },
            GroupId::Distance => {
                r.push("acc_detector_distance_definitions.h".to_owned());
                r.push("acc_detector_distance.h".to_owned());
            },
            GroupId::Presence => {
                r.push("acc_detector_presence.h".to_owned());
            },
        }
        proof {
            assert(spec_texts(r@) =~= spec_headers(self));
        }
        r
    }

    /// This header group.
    pub fn header_group(self) -> (r: HeaderGroup)
        ensures
            r@ == spec_header_group(self),
    {
        HeaderGroup {
            stub_file: self.artifact().source,
            headers: self.headers(),
            activation: self.activation(),
        }
    }
}

/// The groups that take part under `caps`, in processing order.
pub fn enabled_groups(caps: Capabilities) -> (r: Vec<GroupId>)
    ensures
        r@ == spec_enabled_groups(caps),
{
    let mut r: Vec<GroupId> = Vec::new();
    r.push(GroupId::Base);
    if caps.distance {
        r.push(GroupId::Distance);
    }
    if caps.presence {
        r.push(GroupId::Presence);
    }
    proof {
        assert(r@ =~= spec_enabled_groups(caps));
    }
    r
}

} // verus!
