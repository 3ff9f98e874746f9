//! Requirements handed to `ncclDevCommCreate`.
//!
//! [`RequirementsRecord`] is a field-for-field image of the C struct
//! `ncclDevCommRequirements_t`; [`DeviceCommRequirements`] is the builder that
//! starts from NCCL's initializer and changes one requested field per call.
//! Every number that only the selected NCCL headers know (the struct size, the
//! API magic and version, the "undefined" sentinel and the GIN connection
//! encodings) enters through [`NcclHeaders`].

use vstd::prelude::*;

verus! {

/// The values that the selected NCCL headers define for the device API.
#[derive(Clone, Copy, Debug, PartialEq, Eq, Structural)]
pub struct NcclHeaders {
    /// `sizeof(ncclDevCommRequirements_t)`.
    pub requirements_size: usize,
    /// `NCCL_API_MAGIC`.
    pub api_magic: u32,
    /// `NCCL_VERSION_CODE`.
    pub version_code: u32,
    /// `NCCL_CONFIG_UNDEF_INT`.
    pub config_undef_int: i32,
    /// `NCCL_GIN_CONNECTION_NONE`.
    pub gin_connection_none: u32,
    /// `NCCL_GIN_CONNECTION_FULL`.
    pub gin_connection_full: u32,
    /// `NCCL_GIN_CONNECTION_RAIL`.
    pub gin_connection_rail: u32,
}

/// The GIN connections requested for a device communicator.
#[derive(Clone, Copy, Debug, PartialEq, Eq, Hash, Structural)]
pub enum GinConnectionType {
    NoConnection,
    Full,
    Rail,
}

/// The header encoding of a GIN connection type.
pub open spec fn gin_connection_code(headers: NcclHeaders, connection_type: GinConnectionType) -> u32 {
    match connection_type {
        GinConnectionType::NoConnection => headers.gin_connection_none,
        GinConnectionType::Full => headers.gin_connection_full,
        GinConnectionType::Rail => headers.gin_connection_rail,
    }
}

impl GinConnectionType {
    /// The `ncclGinConnectionType_t` value of this connection type.
    pub fn as_raw(self, headers: &NcclHeaders) -> (code: u32)
        ensures
            code == gin_connection_code(*headers, self),
    {
        match self {
            GinConnectionType::NoConnection => headers.gin_connection_none,
            GinConnectionType::Full => headers.gin_connection_full,
            GinConnectionType::Rail => headers.gin_connection_rail,
        }
    }
}

/// Field-for-field image of `ncclDevCommRequirements_t`.
///
/// The two linked-list heads hold addresses; this library never links a list,
/// so they stay `0` (null).
#[derive(Clone, Copy, Debug, PartialEq, Eq, Structural)]
pub struct RequirementsRecord {
    pub size: usize,
    pub magic: u32,
    pub version: u32,
    pub resource_requirements_list: usize,
    pub team_requirements_list: usize,
    pub lsa_multimem: bool,
    pub barrier_count: i32,
    pub lsa_barrier_count: i32,
    pub rail_gin_barrier_count: i32,
    pub lsa_lla2a_block_count: i32,
    pub lsa_lla2a_slot_count: i32,
    pub gin_force_enable: bool,
    pub gin_context_count: i32,
    pub gin_signal_count: i32,
    pub gin_counter_count: i32,
    pub gin_connection_type: u32,
    pub gin_exclusive_contexts: bool,
    pub gin_queue_depth: i32,
    pub gin_traffic_class: i32,
    pub world_gin_barrier_count: i32,
    pub gin_strong_signals_required: bool,
    pub gin_va_signals_required: bool,
}

/// The requirements a caller can set: every field of [`RequirementsRecord`]
/// except the header framing (size, magic, version) and the list heads.
#[derive(Clone, Copy, Debug, PartialEq, Eq, Structural)]
pub struct RequirementSettings {
    pub lsa_multimem: bool,
    pub barrier_count: i32,
    pub lsa_barrier_count: i32,
    pub rail_gin_barrier_count: i32,
    pub lsa_lla2a_block_count: i32,
    pub lsa_lla2a_slot_count: i32,
    pub gin_force_enable: bool,
    pub gin_context_count: i32,
    pub gin_signal_count: i32,
    pub gin_counter_count: i32,
    pub gin_connection_type: u32,
    pub gin_exclusive_contexts: bool,
    pub gin_queue_depth: i32,
    pub gin_traffic_class: i32,
    pub world_gin_barrier_count: i32,
    pub gin_strong_signals_required: bool,
    pub gin_va_signals_required: bool,
}

/// The caller-settable part of a requirements record.
pub open spec fn settings_of(raw: RequirementsRecord) -> RequirementSettings {
    RequirementSettings {
        lsa_multimem: raw.lsa_multimem,
        barrier_count: raw.barrier_count,
        lsa_barrier_count: raw.lsa_barrier_count,
        rail_gin_barrier_count: raw.rail_gin_barrier_count,
        lsa_lla2a_block_count: raw.lsa_lla2a_block_count,
        lsa_lla2a_slot_count: raw.lsa_lla2a_slot_count,
        gin_force_enable: raw.gin_force_enable,
        gin_context_count: raw.gin_context_count,
        gin_signal_count: raw.gin_signal_count,
        gin_counter_count: raw.gin_counter_count,
        gin_connection_type: raw.gin_connection_type,
        gin_exclusive_contexts: raw.gin_exclusive_contexts,
        gin_queue_depth: raw.gin_queue_depth,
        gin_traffic_class: raw.gin_traffic_class,
        world_gin_barrier_count: raw.world_gin_barrier_count,
        gin_strong_signals_required: raw.gin_strong_signals_required,
        gin_va_signals_required: raw.gin_va_signals_required,
    }
}

/// `NCCL_DEV_COMM_REQUIREMENTS_INITIALIZER` for the given headers.
pub open spec fn initializer_record(headers: NcclHeaders) -> RequirementsRecord {
    RequirementsRecord {
        size: headers.requirements_size,
        magic: headers.api_magic,
        version: headers.version_code,
        resource_requirements_list: 0,
        team_requirements_list: 0,
        lsa_multimem: false,
        barrier_count: 0,
        lsa_barrier_count: 0,
        rail_gin_barrier_count: 0,
        lsa_lla2a_block_count: 0,
        lsa_lla2a_slot_count: 0,
        gin_force_enable: false,
        gin_context_count: 4,
        gin_signal_count: 0,
        gin_counter_count: 0,
        gin_connection_type: headers.gin_connection_none,
        gin_exclusive_contexts: false,
        gin_queue_depth: 0,
        gin_traffic_class: headers.config_undef_int,
        world_gin_barrier_count: 0,
        gin_strong_signals_required: true,
        gin_va_signals_required: true,
    }
}

/// Each field of the settings is the field of the same name in the record.
pub proof fn law_settings_fields(raw: RequirementsRecord)
    ensures
        settings_of(raw).lsa_multimem == raw.lsa_multimem,
        settings_of(raw).barrier_count == raw.barrier_count,
        settings_of(raw).lsa_barrier_count == raw.lsa_barrier_count,
        settings_of(raw).rail_gin_barrier_count == raw.rail_gin_barrier_count,
        settings_of(raw).lsa_lla2a_block_count == raw.lsa_lla2a_block_count,
        settings_of(raw).lsa_lla2a_slot_count == raw.lsa_lla2a_slot_count,
        settings_of(raw).gin_force_enable == raw.gin_force_enable,
        settings_of(raw).gin_context_count == raw.gin_context_count,
        settings_of(raw).gin_signal_count == raw.gin_signal_count,
        settings_of(raw).gin_counter_count == raw.gin_counter_count,
        settings_of(raw).gin_connection_type == raw.gin_connection_type,
        settings_of(raw).gin_exclusive_contexts == raw.gin_exclusive_contexts,
        settings_of(raw).gin_queue_depth == raw.gin_queue_depth,
        settings_of(raw).gin_traffic_class == raw.gin_traffic_class,
        settings_of(raw).world_gin_barrier_count == raw.world_gin_barrier_count,
        settings_of(raw).gin_strong_signals_required == raw.gin_strong_signals_required,
        settings_of(raw).gin_va_signals_required == raw.gin_va_signals_required,
{
}

/// The initializer sets the framing from the headers, null list heads, the
/// "undefined" traffic class, no GIN connection, four GIN contexts, required
/// strong and VA signals, and every other count and flag to zero or false.
pub proof fn law_initializer_fields(headers: NcclHeaders)
    ensures
        initializer_record(headers).size == headers.requirements_size,
        initializer_record(headers).magic == headers.api_magic,
        initializer_record(headers).version == headers.version_code,
        initializer_record(headers).resource_requirements_list == 0,
        initializer_record(headers).team_requirements_list == 0,
        !initializer_record(headers).lsa_multimem,
        initializer_record(headers).barrier_count == 0,
        initializer_record(headers).lsa_barrier_count == 0,
        initializer_record(headers).rail_gin_barrier_count == 0,
        initializer_record(headers).lsa_lla2a_block_count == 0,
        initializer_record(headers).lsa_lla2a_slot_count == 0,
        !initializer_record(headers).gin_force_enable,
        initializer_record(headers).gin_context_count == 4,
        initializer_record(headers).gin_signal_count == 0,
        initializer_record(headers).gin_counter_count == 0,
        initializer_record(headers).gin_connection_type == headers.gin_connection_none,
        !initializer_record(headers).gin_exclusive_contexts,
        initializer_record(headers).gin_queue_depth == 0,
        initializer_record(headers).gin_traffic_class == headers.config_undef_int,
        initializer_record(headers).world_gin_barrier_count == 0,
        initializer_record(headers).gin_strong_signals_required,
        initializer_record(headers).gin_va_signals_required,
{
}

/// Each connection type is encoded by the header constant of the same name.
pub proof fn law_gin_connection_codes(headers: NcclHeaders)
    ensures
        gin_connection_code(headers, GinConnectionType::NoConnection) == headers.gin_connection_none,
        gin_connection_code(headers, GinConnectionType::Full) == headers.gin_connection_full,
        gin_connection_code(headers, GinConnectionType::Rail) == headers.gin_connection_rail,
{
}

/// Initialized requirements for `ncclDevCommCreate`.
#[derive(Clone, Copy)]
pub struct DeviceCommRequirements {
    headers: NcclHeaders,
    raw: RequirementsRecord,
}

impl View for DeviceCommRequirements {
    type V = RequirementsRecord;

    closed spec fn view(&self) -> RequirementsRecord {
        self.raw
    }
}

impl DeviceCommRequirements {
    /// The headers these requirements were initialized for.
    pub closed spec fn headers_spec(self) -> NcclHeaders {
        self.headers
    }

    /// Requirements exactly as `NCCL_DEV_COMM_REQUIREMENTS_INITIALIZER` sets them.
    pub fn initializer(headers: NcclHeaders) -> (requirements: Self)
        ensures
            requirements@ == initializer_record(headers),
            requirements.headers_spec() == headers,
    {
        DeviceCommRequirements {
            headers,
            raw: RequirementsRecord {
                size: headers.requirements_size,
                magic: headers.api_magic,
                version: headers.version_code,
                resource_requirements_list: 0,
                team_requirements_list: 0,
                lsa_multimem: false,
                barrier_count: 0,
                lsa_barrier_count: 0,
                rail_gin_barrier_count: 0,
                lsa_lla2a_block_count: 0,
                lsa_lla2a_slot_count: 0,
                gin_force_enable: false,
                gin_context_count: 4,
                gin_signal_count: 0,
                gin_counter_count: 0,
                gin_connection_type: headers.gin_connection_none,
                gin_exclusive_contexts: false,
                gin_queue_depth: 0,
                gin_traffic_class: headers.config_undef_int,
                world_gin_barrier_count: 0,
                gin_strong_signals_required: true,
                gin_va_signals_required: true,
            },
        }
    }

    /// The C image of these requirements.
    pub fn raw(&self) -> (raw: RequirementsRecord)
        ensures
            raw == self@,
    {
        self.raw
    }

    /// The fields a caller can set, as the requirements' debug view shows them.
    pub fn settings(&self) -> (settings: RequirementSettings)
        ensures
            settings == settings_of(self@),
            settings.lsa_multimem == self@.lsa_multimem,
            settings.barrier_count == self@.barrier_count,
            settings.lsa_barrier_count == self@.lsa_barrier_count,
            settings.rail_gin_barrier_count == self@.rail_gin_barrier_count,
            settings.lsa_lla2a_block_count == self@.lsa_lla2a_block_count,
            settings.lsa_lla2a_slot_count == self@.lsa_lla2a_slot_count,
            settings.gin_force_enable == self@.gin_force_enable,
            settings.gin_context_count == self@.gin_context_count,
            settings.gin_signal_count == self@.gin_signal_count,
            settings.gin_counter_count == self@.gin_counter_count,
            settings.gin_connection_type == self@.gin_connection_type,
            settings.gin_exclusive_contexts == self@.gin_exclusive_contexts,
            settings.gin_queue_depth == self@.gin_queue_depth,
            settings.gin_traffic_class == self@.gin_traffic_class,
            settings.world_gin_barrier_count == self@.world_gin_barrier_count,
            settings.gin_strong_signals_required == self@.gin_strong_signals_required,
            settings.gin_va_signals_required == self@.gin_va_signals_required,
    {
        let raw = &self.raw;
        RequirementSettings {
            lsa_multimem: raw.lsa_multimem,
            barrier_count: raw.barrier_count,
            lsa_barrier_count: raw.lsa_barrier_count,
            rail_gin_barrier_count: raw.rail_gin_barrier_count,
            lsa_lla2a_block_count: raw.lsa_lla2a_block_count,
            lsa_lla2a_slot_count: raw.lsa_lla2a_slot_count,
            gin_force_enable: raw.gin_force_enable,
            gin_context_count: raw.gin_context_count,
            gin_signal_count: raw.gin_signal_count,
            gin_counter_count: raw.gin_counter_count,
            gin_connection_type: raw.gin_connection_type,
            gin_exclusive_contexts: raw.gin_exclusive_contexts,
            gin_queue_depth: raw.gin_queue_depth,
            gin_traffic_class: raw.gin_traffic_class,
            world_gin_barrier_count: raw.world_gin_barrier_count,
            gin_strong_signals_required: raw.gin_strong_signals_required,
            gin_va_signals_required: raw.gin_va_signals_required,
        }
    }

    /// The headers these requirements were initialized for.
    pub fn headers(&self) -> (headers: NcclHeaders)
        ensures
            headers == self.headers_spec(),
    {
        self.headers
    }

    pub fn lsa_multimem(self, enabled: bool) -> (updated: Self)
        ensures
            updated@ == (RequirementsRecord { lsa_multimem: enabled, ..self@ }),
            updated.headers_spec() == self.headers_spec(),
    {
        let mut updated = self;
        updated.raw.lsa_multimem = enabled;
        updated
    }

    pub fn barrier_count(self, count: i32) -> (updated: Self)
        ensures
            updated@ == (RequirementsRecord { barrier_count: count, ..self@ }),
            updated.headers_spec() == self.headers_spec(),
    {
        let mut updated = self;
        updated.raw.barrier_count = count;
        updated
    }

    pub fn lsa_barrier_count(self, count: i32) -> (updated: Self)
        ensures
            updated@ == (RequirementsRecord { lsa_barrier_count: count, ..self@ }),
            updated.headers_spec() == self.headers_spec(),
    {
        let mut updated = self;
        updated.raw.lsa_barrier_count = count;
        updated
    }

    pub fn rail_gin_barrier_count(self, count: i32) -> (updated: Self)
        ensures
            updated@ == (RequirementsRecord { rail_gin_barrier_count: count, ..self@ }),
            updated.headers_spec() == self.headers_spec(),
    {
        let mut updated = self;
        updated.raw.rail_gin_barrier_count = count;
        updated
    }

    pub fn lsa_lla2a(self, block_count: i32, slot_count: i32) -> (updated: Self)
        ensures
            updated@ == (RequirementsRecord {
                lsa_lla2a_block_count: block_count,
                lsa_lla2a_slot_count: slot_count,
                ..self@
            }),
            updated.headers_spec() == self.headers_spec(),
    {
        let mut updated = self;
        updated.raw.lsa_lla2a_block_count = block_count;
        updated.raw.lsa_lla2a_slot_count = slot_count;
        updated
    }

    pub fn gin_force_enable(self, enabled: bool) -> (updated: Self)
        ensures
            updated@ == (RequirementsRecord { gin_force_enable: enabled, ..self@ }),
            updated.headers_spec() == self.headers_spec(),
    {
        let mut updated = self;
        updated.raw.gin_force_enable = enabled;
        updated
    }

    pub fn gin_context_count(self, count: i32) -> (updated: Self)
        ensures
            updated@ == (RequirementsRecord { gin_context_count: count, ..self@ }),
            updated.headers_spec() == self.headers_spec(),
    {
        let mut updated = self;
        updated.raw.gin_context_count = count;
        updated
    }

    pub fn gin_signal_count(self, count: i32) -> (updated: Self)
        ensures
            updated@ == (RequirementsRecord { gin_signal_count: count, ..self@ }),
            updated.headers_spec() == self.headers_spec(),
    {
        let mut updated = self;
        updated.raw.gin_signal_count = count;
        updated
    }

    pub fn gin_counter_count(self, count: i32) -> (updated: Self)
        ensures
            updated@ == (RequirementsRecord { gin_counter_count: count, ..self@ }),
            updated.headers_spec() == self.headers_spec(),
    {
        let mut updated = self;
        updated.raw.gin_counter_count = count;
        updated
    }

    pub fn gin_connection_type(self, connection_type: GinConnectionType) -> (updated: Self)
        ensures
            updated@ == (RequirementsRecord {
                gin_connection_type: gin_connection_code(self.headers_spec(), connection_type),
                ..self@
            }),
            updated.headers_spec() == self.headers_spec(),
    {
        let mut updated = self;
        updated.raw.gin_connection_type = connection_type.as_raw(&self.headers);
        updated
    }

    pub fn gin_exclusive_contexts(self, enabled: bool) -> (updated: Self)
        ensures
            updated@ == (RequirementsRecord { gin_exclusive_contexts: enabled, ..self@ }),
            updated.headers_spec() == self.headers_spec(),
    {
        let mut updated = self;
        updated.raw.gin_exclusive_contexts = enabled;
        updated
    }

    pub fn gin_queue_depth(self, depth: i32) -> (updated: Self)
        ensures
            updated@ == (RequirementsRecord { gin_queue_depth: depth, ..self@ }),
            updated.headers_spec() == self.headers_spec(),
    {
        let mut updated = self;
        updated.raw.gin_queue_depth = depth;
        updated
    }

    pub fn gin_traffic_class(self, traffic_class: i32) -> (updated: Self)
        ensures
            updated@ == (RequirementsRecord { gin_traffic_class: traffic_class, ..self@ }),
            updated.headers_spec() == self.headers_spec(),
    {
        let mut updated = self;
        updated.raw.gin_traffic_class = traffic_class;
        updated
    }

    pub fn world_gin_barrier_count(self, count: i32) -> (updated: Self)
        ensures
            updated@ == (RequirementsRecord { world_gin_barrier_count: count, ..self@ }),
            updated.headers_spec() == self.headers_spec(),
    {
        let mut updated = self;
        updated.raw.world_gin_barrier_count = count;
        updated
    }

    pub fn gin_strong_signals_required(self, required: bool) -> (updated: Self)
        ensures
            updated@ == (RequirementsRecord { gin_strong_signals_required: required, ..self@ }),
            updated.headers_spec() == self.headers_spec(),
    {
        let mut updated = self;
        updated.raw.gin_strong_signals_required = required;
        updated
    }

    pub fn gin_va_signals_required(self, required: bool) -> (updated: Self)
        ensures
            updated@ == (RequirementsRecord { gin_va_signals_required: required, ..self@ }),
            updated.headers_spec() == self.headers_spec(),
    {
        let mut updated = self;
        updated.raw.gin_va_signals_required = required;
        updated
    }
}

} // verus!
