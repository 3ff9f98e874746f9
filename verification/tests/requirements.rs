use nccl4rust::{
    DeviceCommRequirements, GinConnectionType, NcclHeaders, RequirementSettings, RequirementsRecord,
};

/// Header values of a representative NCCL build.
fn headers() -> NcclHeaders {
    NcclHeaders {
        requirements_size: 96,
        api_magic: 0xcafe_beef,
        version_code: 22_903,
        config_undef_int: i32::MIN,
        gin_connection_none: 0,
        gin_connection_full: 1,
        gin_connection_rail: 2,
    }
}

#[test]
fn default_matches_device_requirements_initializer() {
    let headers = headers();
    let requirements = DeviceCommRequirements::initializer(headers);
    let raw = requirements.raw();

    assert_eq!(raw.size, headers.requirements_size);
    assert_eq!(raw.magic, headers.api_magic);
    assert_eq!(raw.version, headers.version_code);
    assert_eq!(raw.resource_requirements_list, 0);
    assert_eq!(raw.team_requirements_list, 0);
    assert!(!raw.lsa_multimem);
    assert_eq!(raw.barrier_count, 0);
    assert_eq!(raw.lsa_barrier_count, 0);
    assert_eq!(raw.rail_gin_barrier_count, 0);
    assert_eq!(raw.lsa_lla2a_block_count, 0);
    assert_eq!(raw.lsa_lla2a_slot_count, 0);
    assert!(!raw.gin_force_enable);
    assert_eq!(raw.gin_context_count, 4);
    assert_eq!(raw.gin_signal_count, 0);
    assert_eq!(raw.gin_counter_count, 0);
    assert_eq!(raw.gin_connection_type, headers.gin_connection_none);
    assert!(!raw.gin_exclusive_contexts);
    assert_eq!(raw.gin_queue_depth, 0);
    assert_eq!(raw.gin_traffic_class, headers.config_undef_int);
    assert_eq!(raw.world_gin_barrier_count, 0);
    assert!(raw.gin_strong_signals_required);
    assert!(raw.gin_va_signals_required);
}

#[test]
fn requirements_builders_update_only_requested_fields() {
    let headers = headers();
    let requirements = DeviceCommRequirements::initializer(headers)
        .lsa_multimem(true)
        .barrier_count(3)
        .gin_context_count(8)
        .gin_connection_type(GinConnectionType::Rail)
        .gin_strong_signals_required(false);
    let raw = requirements.raw();
    assert!(raw.lsa_multimem);
    assert_eq!(raw.barrier_count, 3);
    assert_eq!(raw.gin_context_count, 8);
    assert_eq!(raw.gin_connection_type, headers.gin_connection_rail);
    assert!(!raw.gin_strong_signals_required);
    assert!(raw.gin_va_signals_required);
}

#[test]
fn initializer_keeps_the_headers() {
    let headers = headers();
    let requirements = DeviceCommRequirements::initializer(headers).barrier_count(2);
    assert_eq!(requirements.headers(), headers);
}

#[test]
fn gin_connection_types_use_the_header_encoding() {
    let headers = NcclHeaders {
        gin_connection_none: 10,
        gin_connection_full: 20,
        gin_connection_rail: 30,
        ..headers()
    };
    assert_eq!(GinConnectionType::NoConnection.as_raw(&headers), 10);
    assert_eq!(GinConnectionType::Full.as_raw(&headers), 20);
    assert_eq!(GinConnectionType::Rail.as_raw(&headers), 30);
    let full = DeviceCommRequirements::initializer(headers).gin_connection_type(GinConnectionType::Full);
    assert_eq!(full.raw().gin_connection_type, 20);
    let back = full.gin_connection_type(GinConnectionType::NoConnection);
    assert_eq!(back.raw().gin_connection_type, 10);
}

/// Apply one builder to fresh requirements and return the record before and after.
fn before_after(
    update: impl FnOnce(DeviceCommRequirements) -> DeviceCommRequirements,
) -> (RequirementsRecord, RequirementsRecord) {
    let start = DeviceCommRequirements::initializer(headers());
    let before = start.raw();
    (before, update(start).raw())
}

#[test]
fn every_builder_sets_its_own_field() {
    let (b, a) = before_after(|r| r.lsa_multimem(true));
    assert_eq!(a, RequirementsRecord { lsa_multimem: true, ..b });
    let (b, a) = before_after(|r| r.barrier_count(7));
    assert_eq!(a, RequirementsRecord { barrier_count: 7, ..b });
    let (b, a) = before_after(|r| r.lsa_barrier_count(2));
    assert_eq!(a, RequirementsRecord { lsa_barrier_count: 2, ..b });
    let (b, a) = before_after(|r| r.rail_gin_barrier_count(5));
    assert_eq!(a, RequirementsRecord { rail_gin_barrier_count: 5, ..b });
    let (b, a) = before_after(|r| r.lsa_lla2a(6, 9));
    assert_eq!(
        a,
        RequirementsRecord { lsa_lla2a_block_count: 6, lsa_lla2a_slot_count: 9, ..b }
    );
    let (b, a) = before_after(|r| r.gin_force_enable(true));
    assert_eq!(a, RequirementsRecord { gin_force_enable: true, ..b });
    let (b, a) = before_after(|r| r.gin_context_count(16));
    assert_eq!(a, RequirementsRecord { gin_context_count: 16, ..b });
    let (b, a) = before_after(|r| r.gin_signal_count(11));
    assert_eq!(a, RequirementsRecord { gin_signal_count: 11, ..b });
    let (b, a) = before_after(|r| r.gin_counter_count(12));
    assert_eq!(a, RequirementsRecord { gin_counter_count: 12, ..b });
    let (b, a) = before_after(|r| r.gin_connection_type(GinConnectionType::Full));
    assert_eq!(a, RequirementsRecord { gin_connection_type: 1, ..b });
    let (b, a) = before_after(|r| r.gin_exclusive_contexts(true));
    assert_eq!(a, RequirementsRecord { gin_exclusive_contexts: true, ..b });
    let (b, a) = before_after(|r| r.gin_queue_depth(64));
    assert_eq!(a, RequirementsRecord { gin_queue_depth: 64, ..b });
    let (b, a) = before_after(|r| r.gin_traffic_class(3));
    assert_eq!(a, RequirementsRecord { gin_traffic_class: 3, ..b });
    let (b, a) = before_after(|r| r.world_gin_barrier_count(4));
    assert_eq!(a, RequirementsRecord { world_gin_barrier_count: 4, ..b });
    let (b, a) = before_after(|r| r.gin_strong_signals_required(false));
    assert_eq!(a, RequirementsRecord { gin_strong_signals_required: false, ..b });
    let (b, a) = before_after(|r| r.gin_va_signals_required(false));
    assert_eq!(a, RequirementsRecord { gin_va_signals_required: false, ..b });
}

#[test]
fn a_later_builder_call_overrides_an_earlier_one() {
    let requirements = DeviceCommRequirements::initializer(headers())
        .gin_queue_depth(8)
        .gin_queue_depth(32);
    assert_eq!(requirements.raw().gin_queue_depth, 32);
}

#[test]
fn settings_show_the_caller_settable_fields() {
    let headers = headers();
    let requirements = DeviceCommRequirements::initializer(headers)
        .lsa_lla2a(2, 3)
        .gin_traffic_class(5)
        .gin_connection_type(GinConnectionType::Full);
    let settings = requirements.settings();
    assert_eq!(
        settings,
        RequirementSettings {
            lsa_multimem: false,
            barrier_count: 0,
            lsa_barrier_count: 0,
            rail_gin_barrier_count: 0,
            lsa_lla2a_block_count: 2,
            lsa_lla2a_slot_count: 3,
            gin_force_enable: false,
            gin_context_count: 4,
            gin_signal_count: 0,
            gin_counter_count: 0,
            gin_connection_type: headers.gin_connection_full,
            gin_exclusive_contexts: false,
            gin_queue_depth: 0,
            gin_traffic_class: 5,
            world_gin_barrier_count: 0,
            gin_strong_signals_required: true,
            gin_va_signals_required: true,
        }
    );
}
