//! Audio port layout of the gain plugin and its negotiation with the host.
//!
//! The plugin exposes one main input and one main output port. Their channel
//! count is shared: the host may propose a new layout through a list of
//! configuration requests, and the plugin accepts it only when the main input
//! and main output end up symmetric (mono/mono or stereo/stereo).
use vstd::prelude::*;

use crate::errors::PluginError;

verus! {

/// Channel layout that a port declares to the host.
#[derive(Debug, Clone, Copy, PartialEq, Eq, Structural)]
pub enum AudioPortType {
    Mono,
    Stereo,
    Unspecified,
}

/// One entry of a host proposal to change the layout of a port.
#[derive(Debug, Clone, Copy)]
pub struct AudioPortConfigurationRequest {
    pub is_input: bool,
    pub port_index: u32,
    pub channel_count: u32,
    pub port_type: AudioPortType,
}

/// Flags that a port declares to the host.
#[derive(Debug, Clone, Copy)]
pub struct AudioPortFlags {
    pub is_main: bool,
}

/// What the plugin tells the host about one of its audio ports.
#[derive(Debug, Clone, Copy)]
pub struct AudioPortInfo {
    pub id: u32,
    pub name: &'static str,
    pub flags: AudioPortFlags,
    pub channel_count: u32,
    pub port_type: AudioPortType,
    pub in_place_pair: Option<u32>,
}

/// Channel count of the default (stereo) layout.
pub const DEFAULT_CHANNEL_COUNT: u32 = 2;

/// Port type that matches a channel count.
pub open spec fn spec_audio_port_type(channel_count: u32) -> AudioPortType {
    if channel_count == 1 {
        AudioPortType::Mono
    } else if channel_count == 2 {
        AudioPortType::Stereo
    } else {
        AudioPortType::Unspecified
    }
}

/// A request is supported when it asks for mono or stereo, with a port type that
/// agrees with the channel count or leaves it unspecified.
pub open spec fn spec_is_supported_audio_port_request(request: AudioPortConfigurationRequest) -> bool {
    ||| (request.channel_count == 1 && (request.port_type == AudioPortType::Mono
        || request.port_type == AudioPortType::Unspecified))
    ||| (request.channel_count == 2 && (request.port_type == AudioPortType::Stereo
        || request.port_type == AudioPortType::Unspecified))
}

/// A request is acceptable when it targets the main port (index 0) and is supported.
pub open spec fn spec_request_acceptable(request: AudioPortConfigurationRequest) -> bool {
    request.port_index == 0 && spec_is_supported_audio_port_request(request)
}

/// Channel count that one side (input or output) ends up with after the requests:
/// the last request for that side wins, and without one the current count stays.
pub open spec fn requested_channel_count(
    requests: Seq<AudioPortConfigurationRequest>,
    is_input: bool,
    current_channel_count: u32,
) -> u32
    decreases requests.len(),
{
    if requests.len() == 0 {
        current_channel_count
    } else if requests.last().is_input == is_input {
        requests.last().channel_count
    } else {
        requested_channel_count(requests.drop_last(), is_input, current_channel_count)
    }
}

/// Channel count that the plugin accepts for a list of requests, or `None` when it
/// rejects them: every request must be acceptable, and both sides must agree.
pub open spec fn spec_resolve_audio_channel_count(
    current_channel_count: u32,
    requests: Seq<AudioPortConfigurationRequest>,
) -> Option<u32> {
    if forall|i: int| 0 <= i < requests.len() ==> spec_request_acceptable(#[trigger] requests[i]) {
        let input = requested_channel_count(requests, true, current_channel_count);
        let output = requested_channel_count(requests, false, current_channel_count);
        if input == output {
            Some(input)
        } else {
            None
        }
    } else {
        None
    }
}

/// Port information for a layout of `channel_count` channels.
pub open spec fn spec_audio_port_info(channel_count: u32, index: u32, is_input: bool) -> Option<
    AudioPortInfo,
> {
    if index == 0 {
        Some(
            AudioPortInfo {
                id: if is_input {
                    1
                } else {
                    2
                },
                name: if is_input {
                    "Main In"
                } else {
                    "Main Out"
                },
                flags: AudioPortFlags { is_main: true },
                channel_count,
                port_type: spec_audio_port_type(channel_count),
                in_place_pair: None,
            },
        )
    } else {
        None
    }
}

/// Port type that matches a channel count: mono for one channel, stereo for two,
/// unspecified otherwise.
pub fn audio_port_type(channel_count: u32) -> (t: AudioPortType)
    ensures
        t == spec_audio_port_type(channel_count),
{
    match channel_count {
        1 => AudioPortType::Mono,
        2 => AudioPortType::Stereo,
        _ => AudioPortType::Unspecified,
    }
}

/// Whether a request asks for a channel count and port type that the plugin supports.
pub fn is_supported_audio_port_request(request: &AudioPortConfigurationRequest) -> (b: bool)
    ensures
        b == spec_is_supported_audio_port_request(*request),
{
    match (request.channel_count, request.port_type) {
        (1, AudioPortType::Mono) | (1, AudioPortType::Unspecified) => true,
        (2, AudioPortType::Stereo) | (2, AudioPortType::Unspecified) => true,
        _ => false,
    }
}

/// Analyses the host's layout requests and returns the new channel count when the
/// plugin can accept them. Only symmetric main-port layouts are accepted.
pub fn resolve_audio_channel_count(
    current_channel_count: u32,
    requests: &[AudioPortConfigurationRequest],
) -> (r: Option<u32>)
    ensures
        r == spec_resolve_audio_channel_count(current_channel_count, requests@),
{
    let mut input_channel_count = current_channel_count;
    let mut output_channel_count = current_channel_count;
    let n = requests.len();
    let mut i: usize = 0;
    while i < n
        invariant
            n == requests@.len(),
            0 <= i <= n,
            forall|j: int| 0 <= j < i ==> spec_request_acceptable(#[trigger] requests@[j]),
            input_channel_count == requested_channel_count(
                requests@.take(i as int),
                true,
                current_channel_count,
            ),
            output_channel_count == requested_channel_count(
                requests@.take(i as int),
                false,
                current_channel_count,
            ),
        decreases n - i,
    {
        let request = &requests[i];
        if request.port_index != 0 {
            assert(!spec_request_acceptable(requests@[i as int]));
            return None;
        }
        if !is_supported_audio_port_request(request) {
            assert(!spec_request_acceptable(requests@[i as int]));
            return None;
        }
        if request.is_input {
            input_channel_count = request.channel_count;
        } else {
            output_channel_count = request.channel_count;
        }
        assert(requests@.take(i + 1).drop_last() =~= requests@.take(i as int));
        i = i + 1;
    }
    assert(requests@.take(n as int) =~= requests@);
    if input_channel_count == output_channel_count {
        Some(input_channel_count)
    } else {
        None
    }
}

/// Audio ports of the gain plugin: one main input and one main output that share
/// a channel count, which starts as stereo and changes only through an accepted
/// host proposal.
pub struct GainAudioPorts {
    channel_count: u32,
}

impl View for GainAudioPorts {
    type V = u32;

    /// The channel count that both main ports currently declare.
    closed spec fn view(&self) -> u32 {
        self.channel_count
    }
}

impl GainAudioPorts {
    #[verifier::type_invariant]
    spec fn is_mono_or_stereo(self) -> bool {
        self.channel_count == 1 || self.channel_count == 2
    }

    /// Ports in the default stereo layout.
    pub fn new() -> (ports: Self)
        ensures
            ports@ == DEFAULT_CHANNEL_COUNT,
    {
        GainAudioPorts { channel_count: DEFAULT_CHANNEL_COUNT }
    }

    /// The channel count that both main ports declare; always mono or stereo.
    pub fn channel_count(&self) -> (c: u32)
        ensures
            c == self@,
            c == 1 || c == 2,
    {
        proof {
            use_type_invariant(self);
        }
        self.channel_count
    }

    /// Number of ports on one side: always a single main port.
    pub fn audio_port_count(&self, _is_input: bool) -> (n: u32)
        ensures
            n == 1,
    {
        1
    }

    /// Describes the port at `index` on the given side; only index 0 exists.
    pub fn audio_port_info(&self, index: u32, is_input: bool) -> (info: Option<AudioPortInfo>)
        ensures
            info == spec_audio_port_info(self@, index, is_input),
    {
        let channel_count = self.channel_count;
        if index != 0 {
            return None;
        }
        if is_input {
            Some(
                AudioPortInfo {
                    id: 1,
                    name: "Main In",
                    flags: AudioPortFlags { is_main: true },
                    channel_count,
                    port_type: audio_port_type(channel_count),
                    in_place_pair: None,
                },
            )
        } else {
            Some(
                AudioPortInfo {
                    id: 2,
                    name: "Main Out",
                    flags: AudioPortFlags { is_main: true },
                    channel_count,
                    port_type: audio_port_type(channel_count),
                    in_place_pair: None,
                },
            )
        }
    }

    /// Whether the plugin would accept the host's layout proposal.
    pub fn can_apply_audio_port_configuration(&self, requests: &[AudioPortConfigurationRequest]) -> (b: bool)
        ensures
            b == spec_resolve_audio_channel_count(self@, requests@) is Some,
    {
        let accepted = resolve_audio_channel_count(self.channel_count, requests);
        accepted.is_some()
    }

    /// Applies the host's layout proposal. On success both ports take the
    /// negotiated channel count; a rejected proposal leaves the ports unchanged and
    /// reports `InvalidState`.
    pub fn apply_audio_port_configuration(&mut self, requests: &[AudioPortConfigurationRequest]) -> (r: Result<(), PluginError>)
        ensures
            r is Ok <==> spec_resolve_audio_channel_count(old(self)@, requests@) is Some,
            r is Ok ==> final(self)@ == spec_resolve_audio_channel_count(old(self)@, requests@)->0,
            r is Err ==> final(self)@ == old(self)@ && r == Err::<(), PluginError>(PluginError::InvalidState),
    {
        proof {
            use_type_invariant(&*self);
            lemma_resolved_channel_count_is_mono_or_stereo(self.channel_count, requests@);
        }
        match resolve_audio_channel_count(self.channel_count, requests) {
            Some(channel_count) => {
                self.channel_count = channel_count;
                Ok(())
            },
            None => Err(PluginError::InvalidState),
        }
    }
}

/// The channel count on either side after acceptable requests is the current one
/// or the count of one of the requests.
proof fn lemma_requested_count_from_current_or_request(
    requests: Seq<AudioPortConfigurationRequest>,
    is_input: bool,
    current_channel_count: u32,
)
    ensures
        requested_channel_count(requests, is_input, current_channel_count) == current_channel_count
            || exists|i: int|
            0 <= i < requests.len() && #[trigger] requests[i].channel_count
                == requested_channel_count(requests, is_input, current_channel_count),
    decreases requests.len(),
{
    if requests.len() > 0 {
        if requests.last().is_input != is_input {
            lemma_requested_count_from_current_or_request(
                requests.drop_last(),
                is_input,
                current_channel_count,
            );
            let r = requested_channel_count(requests, is_input, current_channel_count);
            if r != current_channel_count {
                let i = choose|i: int|
                    0 <= i < requests.drop_last().len() && #[trigger] requests.drop_last()[i].channel_count == r;
                assert(requests[i] == requests.drop_last()[i]);
            }
        } else {
            assert(requests[requests.len() - 1].channel_count == requests.last().channel_count);
        }
    }
}

/// Law: a layout that starts mono or stereo stays mono or stereo, whatever the
/// host proposes.
pub proof fn lemma_resolved_channel_count_is_mono_or_stereo(
    current_channel_count: u32,
    requests: Seq<AudioPortConfigurationRequest>,
)
    requires
        current_channel_count == 1 || current_channel_count == 2,
    ensures
        spec_resolve_audio_channel_count(current_channel_count, requests) matches Some(c) ==> (c
            == 1 || c == 2),
{
    lemma_requested_count_from_current_or_request(requests, true, current_channel_count);
}

/// For one side, the requested count either keeps each starting count, or is the
/// same whatever the starting count was.
proof fn lemma_requested_count_start_dependence(
    requests: Seq<AudioPortConfigurationRequest>,
    is_input: bool,
    first: u32,
    second: u32,
)
    ensures
        (requested_channel_count(requests, is_input, first) == first && requested_channel_count(
            requests,
            is_input,
            second,
        ) == second) || requested_channel_count(requests, is_input, first)
            == requested_channel_count(requests, is_input, second),
    decreases requests.len(),
{
    if requests.len() > 0 && requests.last().is_input != is_input {
        lemma_requested_count_start_dependence(requests.drop_last(), is_input, first, second);
    }
}

/// For one side that some request addresses, the requested count does not depend
/// on the starting count.
proof fn lemma_requested_count_addressed_side(
    requests: Seq<AudioPortConfigurationRequest>,
    is_input: bool,
    first: u32,
    second: u32,
)
    requires
        exists|i: int| 0 <= i < requests.len() && #[trigger] requests[i].is_input == is_input,
    ensures
        requested_channel_count(requests, is_input, first) == requested_channel_count(
            requests,
            is_input,
            second,
        ),
    decreases requests.len(),
{
    if requests.last().is_input != is_input {
        let i = choose|i: int| 0 <= i < requests.len() && #[trigger] requests[i].is_input == is_input;
        assert(i != requests.len() - 1);
        assert(requests.drop_last()[i] == requests[i]);
        lemma_requested_count_addressed_side(requests.drop_last(), is_input, first, second);
    }
}

/// Law: negotiation is idempotent. Proposing again a layout that was just
/// accepted is accepted and yields the same channel count.
pub proof fn lemma_resolve_idempotent(
    current_channel_count: u32,
    requests: Seq<AudioPortConfigurationRequest>,
)
    requires
        spec_resolve_audio_channel_count(current_channel_count, requests) is Some,
    ensures
        spec_resolve_audio_channel_count(
            spec_resolve_audio_channel_count(current_channel_count, requests)->0,
            requests,
        ) == spec_resolve_audio_channel_count(current_channel_count, requests),
{
    let k = spec_resolve_audio_channel_count(current_channel_count, requests)->0;
    lemma_requested_count_start_dependence(requests, true, current_channel_count, k);
    lemma_requested_count_start_dependence(requests, false, current_channel_count, k);
}

/// Law: a proposal that addresses both the input and the output side is decided
/// by the proposal alone, not by the layout the ports had before.
pub proof fn lemma_complete_proposal_ignores_current_layout(
    requests: Seq<AudioPortConfigurationRequest>,
    first: u32,
    second: u32,
)
    requires
        exists|i: int| 0 <= i < requests.len() && #[trigger] requests[i].is_input,
        exists|j: int| 0 <= j < requests.len() && !(#[trigger] requests[j].is_input),
    ensures
        spec_resolve_audio_channel_count(first, requests) == spec_resolve_audio_channel_count(
            second,
            requests,
        ),
{
    lemma_requested_count_addressed_side(requests, true, first, second);
    let j = choose|j: int| 0 <= j < requests.len() && !(#[trigger] requests[j].is_input);
    assert(requests[j].is_input == false);
    lemma_requested_count_addressed_side(requests, false, first, second);
}

/// Law: only the main port (index 0) can be reconfigured; a proposal that touches
/// any other port is rejected as a whole.
pub proof fn lemma_rejects_non_main_port(
    current_channel_count: u32,
    requests: Seq<AudioPortConfigurationRequest>,
    i: int,
)
    requires
        0 <= i < requests.len(),
        requests[i].port_index != 0,
    ensures
        spec_resolve_audio_channel_count(current_channel_count, requests) is None,
{
    assert(!spec_request_acceptable(requests[i]));
}

/// Law: the input and the output port always declare the same channel count
/// and port type, and for a mono or stereo layout that type is never unspecified.
pub proof fn lemma_ports_are_symmetric(channel_count: u32)
    ensures
        spec_audio_port_info(channel_count, 0, true)->0.channel_count == spec_audio_port_info(
            channel_count,
            0,
            false,
        )->0.channel_count,
        spec_audio_port_info(channel_count, 0, true)->0.port_type == spec_audio_port_info(
            channel_count,
            0,
            false,
        )->0.port_type,
        (channel_count == 1 || channel_count == 2) ==> spec_audio_port_info(
            channel_count,
            0,
            true,
        )->0.port_type != AudioPortType::Unspecified,
{
}

/// The request that restates what a port currently declares.
pub open spec fn request_restating(info: AudioPortInfo, is_input: bool) -> AudioPortConfigurationRequest {
    AudioPortConfigurationRequest {
        is_input,
        port_index: 0,
        channel_count: info.channel_count,
        port_type: info.port_type,
    }
}

/// Law: a proposal that restates the layout the ports currently declare is
/// accepted and changes nothing.
pub proof fn lemma_restating_current_layout_is_accepted(channel_count: u32)
    requires
        channel_count == 1 || channel_count == 2,
    ensures
        spec_resolve_audio_channel_count(
            channel_count,
            seq![
                request_restating(spec_audio_port_info(channel_count, 0, true)->0, true),
                request_restating(spec_audio_port_info(channel_count, 0, false)->0, false),
            ],
        ) == Some(channel_count),
{
    let requests = seq![
        request_restating(spec_audio_port_info(channel_count, 0, true)->0, true),
        request_restating(spec_audio_port_info(channel_count, 0, false)->0, false),
    ];
    assert(requests.drop_last() =~= seq![requests[0]]);
    assert(requests.drop_last().drop_last() =~= Seq::<AudioPortConfigurationRequest>::empty());
    assert(forall|i: int| 0 <= i < requests.len() ==> spec_request_acceptable(#[trigger] requests[i]));
    assert(requested_channel_count(requests.drop_last(), true, channel_count) == channel_count);
    assert(requested_channel_count(requests, true, channel_count) == channel_count);
    assert(requested_channel_count(requests, false, channel_count) == channel_count);
}

/// The same request with its port type left unspecified.
pub open spec fn unspecified_type(request: AudioPortConfigurationRequest) -> AudioPortConfigurationRequest {
    AudioPortConfigurationRequest { port_type: AudioPortType::Unspecified, ..request }
}

/// The count a side ends up with depends only on which side each request
/// addresses and on the channel counts, not on port indices or types.
proof fn lemma_requested_count_same_sides_and_counts(
    first: Seq<AudioPortConfigurationRequest>,
    second: Seq<AudioPortConfigurationRequest>,
    is_input: bool,
    current_channel_count: u32,
)
    requires
        first.len() == second.len(),
        forall|i: int| 0 <= i < first.len() ==> (#[trigger] first[i]).is_input == second[i].is_input
            && first[i].channel_count == second[i].channel_count,
    ensures
        requested_channel_count(first, is_input, current_channel_count) == requested_channel_count(
            second,
            is_input,
            current_channel_count,
        ),
    decreases first.len(),
{
    if first.len() > 0 {
        assert(first.last() == first[first.len() - 1]);
        assert(second.last() == second[second.len() - 1]);
        assert forall|i: int| 0 <= i < first.drop_last().len() implies (#[trigger] first.drop_last()[i]).is_input
            == second.drop_last()[i].is_input && first.drop_last()[i].channel_count
            == second.drop_last()[i].channel_count by {
            assert(first.drop_last()[i] == first[i]);
            assert(second.drop_last()[i] == second[i]);
        }
        lemma_requested_count_same_sides_and_counts(
            first.drop_last(),
            second.drop_last(),
            is_input,
            current_channel_count,
        );
    }
}

/// When every request asks for `channel_count` and some request addresses the
/// side, that side ends up with `channel_count`.
proof fn lemma_requested_count_uniform(
    requests: Seq<AudioPortConfigurationRequest>,
    is_input: bool,
    current_channel_count: u32,
    channel_count: u32,
)
    requires
        forall|i: int| 0 <= i < requests.len() ==> (#[trigger] requests[i]).channel_count == channel_count,
        exists|i: int| 0 <= i < requests.len() && (#[trigger] requests[i]).is_input == is_input,
    ensures
        requested_channel_count(requests, is_input, current_channel_count) == channel_count,
    decreases requests.len(),
{
    assert(requests.last() == requests[requests.len() - 1]);
    if requests.last().is_input != is_input {
        let i = choose|i: int| 0 <= i < requests.len() && (#[trigger] requests[i]).is_input == is_input;
        assert(i != requests.len() - 1);
        assert(requests.drop_last()[i] == requests[i]);
        assert forall|j: int| 0 <= j < requests.drop_last().len() implies (#[trigger] requests.drop_last()[j]).channel_count
            == channel_count by {
            assert(requests.drop_last()[j] == requests[j]);
        }
        lemma_requested_count_uniform(requests.drop_last(), is_input, current_channel_count, channel_count);
    }
}

/// Law: a port type matters only through support. For a proposal whose
/// requests are all supported, leaving every port type unspecified gives the
/// same answer; and a proposal of main-port requests that all ask for mono (or
/// all for stereo) without naming a type, and that addresses both sides, is
/// accepted with that count whatever the current layout.
pub proof fn lemma_unspecified_port_type_is_accepted(
    current_channel_count: u32,
    requests: Seq<AudioPortConfigurationRequest>,
    channel_count: u32,
)
    ensures
        (forall|i: int| 0 <= i < requests.len() ==> spec_is_supported_audio_port_request(#[trigger] requests[i]))
            ==> spec_resolve_audio_channel_count(
            current_channel_count,
            requests.map_values(|r: AudioPortConfigurationRequest| unspecified_type(r)),
        ) == spec_resolve_audio_channel_count(current_channel_count, requests),
        ((channel_count == 1 || channel_count == 2)
            && (forall|i: int| 0 <= i < requests.len() ==> (#[trigger] requests[i]).port_index == 0
                && requests[i].channel_count == channel_count
                && requests[i].port_type == AudioPortType::Unspecified)
            && (exists|i: int| 0 <= i < requests.len() && (#[trigger] requests[i]).is_input)
            && (exists|j: int| 0 <= j < requests.len() && !(#[trigger] requests[j]).is_input))
            ==> spec_resolve_audio_channel_count(current_channel_count, requests) == Some(channel_count),
{
    let unspecified = requests.map_values(|r: AudioPortConfigurationRequest| unspecified_type(r));
    if forall|i: int| 0 <= i < requests.len() ==> spec_is_supported_audio_port_request(#[trigger] requests[i]) {
        assert forall|i: int| 0 <= i < unspecified.len() implies (#[trigger] unspecified[i]).is_input
            == requests[i].is_input && unspecified[i].channel_count == requests[i].channel_count by {}
        lemma_requested_count_same_sides_and_counts(unspecified, requests, true, current_channel_count);
        lemma_requested_count_same_sides_and_counts(unspecified, requests, false, current_channel_count);
        assert forall|i: int| 0 <= i < unspecified.len() implies spec_request_acceptable(#[trigger] unspecified[i])
            == spec_request_acceptable(requests[i]) by {
            assert(spec_is_supported_audio_port_request(requests[i]));
        }
        if forall|i: int| 0 <= i < requests.len() ==> spec_request_acceptable(#[trigger] requests[i]) {
            assert forall|i: int| 0 <= i < unspecified.len() implies spec_request_acceptable(#[trigger] unspecified[i]) by {
                assert(spec_request_acceptable(requests[i]));
            }
        } else {
            let k = choose|i: int| 0 <= i < requests.len() && !spec_request_acceptable(#[trigger] requests[i]);
            assert(!spec_request_acceptable(unspecified[k]));
        }
    }
    if (channel_count == 1 || channel_count == 2)
        && (forall|i: int| 0 <= i < requests.len() ==> (#[trigger] requests[i]).port_index == 0
            && requests[i].channel_count == channel_count
            && requests[i].port_type == AudioPortType::Unspecified)
        && (exists|i: int| 0 <= i < requests.len() && (#[trigger] requests[i]).is_input)
        && (exists|j: int| 0 <= j < requests.len() && !(#[trigger] requests[j]).is_input) {
        assert forall|i: int| 0 <= i < requests.len() implies spec_request_acceptable(#[trigger] requests[i]) by {}
        assert forall|i: int| 0 <= i < requests.len() implies (#[trigger] requests[i]).channel_count == channel_count by {}
        lemma_requested_count_uniform(requests, true, current_channel_count, channel_count);
        let j = choose|j: int| 0 <= j < requests.len() && !(#[trigger] requests[j]).is_input;
        assert(requests[j].is_input == false);
        lemma_requested_count_uniform(requests, false, current_channel_count, channel_count);
    }
}

/// Law: the requests that decide the answer. An empty proposal keeps the
/// current layout; a request that asks for neither mono nor stereo, or whose
/// type contradicts its count, rejects the whole proposal; and an accepted
/// non-empty proposal ends with the count of its last request.
pub proof fn lemma_resolve_decided_by_requests(
    current_channel_count: u32,
    requests: Seq<AudioPortConfigurationRequest>,
    i: int,
)
    ensures
        requests.len() == 0 ==> spec_resolve_audio_channel_count(current_channel_count, requests)
            == Some(current_channel_count),
        (0 <= i < requests.len() && (requests[i].channel_count != 1 && requests[i].channel_count != 2
            || requests[i].channel_count == 1 && requests[i].port_type == AudioPortType::Stereo
            || requests[i].channel_count == 2 && requests[i].port_type == AudioPortType::Mono))
            ==> spec_resolve_audio_channel_count(current_channel_count, requests) is None,
        (requests.len() > 0 && spec_resolve_audio_channel_count(current_channel_count, requests) is Some)
            ==> spec_resolve_audio_channel_count(current_channel_count, requests)->0 == requests.last().channel_count,
        spec_resolve_audio_channel_count(current_channel_count, requests) is Some ==> forall|j: int|
            0 <= j < requests.len() ==> (#[trigger] requests[j]).port_index == 0,
{
    if 0 <= i < requests.len() {
        assert(spec_request_acceptable(requests[i]) ==> spec_is_supported_audio_port_request(requests[i]));
    }
}

/// Law: the ports the plugin declares. Index 0 on each side is a main port
/// (id 1 "Main In" for input, id 2 "Main Out" for output) with the current
/// channel count and no in-place pair, both sides declare the same flags, and no
/// other index exists.
pub proof fn lemma_declared_ports(channel_count: u32, index: u32, is_input: bool)
    ensures
        spec_audio_port_info(channel_count, 0, is_input) is Some,
        spec_audio_port_info(channel_count, 0, is_input)->0.flags.is_main,
        spec_audio_port_info(channel_count, 0, true)->0.flags == spec_audio_port_info(
            channel_count,
            0,
            false,
        )->0.flags,
        spec_audio_port_info(channel_count, 0, is_input)->0.channel_count == channel_count,
        spec_audio_port_info(channel_count, 0, is_input)->0.in_place_pair is None,
        spec_audio_port_info(channel_count, 0, true)->0.id == 1,
        spec_audio_port_info(channel_count, 0, false)->0.id == 2,
        spec_audio_port_info(channel_count, 0, true)->0.name == "Main In",
        spec_audio_port_info(channel_count, 0, false)->0.name == "Main Out",
        channel_count == 1 ==> spec_audio_port_info(channel_count, 0, is_input)->0.port_type
            == AudioPortType::Mono,
        channel_count == 2 ==> spec_audio_port_info(channel_count, 0, is_input)->0.port_type
            == AudioPortType::Stereo,
        index != 0 ==> spec_audio_port_info(channel_count, index, is_input) is None,
{
}

} // verus!
