use spaces::adapter::{
    display_adapter_property, display_evailable_graphic_adapters, handle_line,
    performance_warning, property_line, render_property_value, vendor_legend, AdapterDescriptor,
    BackendKind, DeviceClass, PhysicalAdapterProperty,
};

fn plain_adapter(name: &str, vendor: u32, class: DeviceClass, backend: BackendKind) -> AdapterDescriptor {
    AdapterDescriptor {
        name: name.to_string(),
        vendor,
        device_class: class,
        backend,
        features: wgpu::Features::empty(),
        limits: wgpu::Limits::default(),
    }
}

#[test]
fn property_labels() {
    assert_eq!(PhysicalAdapterProperty::Vendor.to_string(), "Vendor");
    assert_eq!(PhysicalAdapterProperty::DeviceType.to_string(), "Device Type");
    assert_eq!(PhysicalAdapterProperty::Backend.to_string(), "Backend");
    assert_eq!(
        PhysicalAdapterProperty::Features.to_string(),
        "Features which supports the GPU"
    );
    assert_eq!(
        PhysicalAdapterProperty::Limits.to_string(),
        "Max Limits - indication of how powerful the GPU can be."
    );
    assert_eq!(PhysicalAdapterProperty::Integrated.to_string(), "Inegrated GPU");
}

#[test]
fn reported_properties_in_order() {
    assert_eq!(
        PhysicalAdapterProperty::iter(),
        vec![
            PhysicalAdapterProperty::Vendor,
            PhysicalAdapterProperty::DeviceType,
            PhysicalAdapterProperty::Backend,
            PhysicalAdapterProperty::Features,
            PhysicalAdapterProperty::Limits,
        ]
    );
}

#[test]
fn property_line_shape() {
    assert_eq!(property_line("Vendor", "4318"), " + Vendor : of Adapter: [4318]");
    assert_eq!(property_line("", ""), " +  : of Adapter: []");
}

#[test]
fn vendor_is_rendered_in_decimal() {
    let adapter = plain_adapter("a", 0x10DE, DeviceClass::DiscreteGpu, BackendKind::Vulkan);
    assert_eq!(render_property_value(&adapter, PhysicalAdapterProperty::Vendor), "4318");
    let adapter = plain_adapter("a", 0, DeviceClass::DiscreteGpu, BackendKind::Vulkan);
    assert_eq!(render_property_value(&adapter, PhysicalAdapterProperty::Vendor), "0");
    let adapter = plain_adapter("a", 10, DeviceClass::DiscreteGpu, BackendKind::Vulkan);
    assert_eq!(render_property_value(&adapter, PhysicalAdapterProperty::Vendor), "10");
    let adapter = plain_adapter("a", u32::MAX, DeviceClass::DiscreteGpu, BackendKind::Vulkan);
    assert_eq!(render_property_value(&adapter, PhysicalAdapterProperty::Vendor), "4294967295");
}

#[test]
fn device_classes_are_rendered_by_name() {
    let expected = [
        (DeviceClass::Other, "Other"),
        (DeviceClass::IntegratedGpu, "IntegratedGpu"),
        (DeviceClass::DiscreteGpu, "DiscreteGpu"),
        (DeviceClass::VirtualGpu, "VirtualGpu"),
        (DeviceClass::Cpu, "Cpu"),
    ];
    for (class, name) in expected {
        let adapter = plain_adapter("a", 1, class, BackendKind::Vulkan);
        assert_eq!(render_property_value(&adapter, PhysicalAdapterProperty::DeviceType), name);
        assert_eq!(render_property_value(&adapter, PhysicalAdapterProperty::Integrated), name);
    }
}

#[test]
fn backends_are_rendered_by_name() {
    let expected = [
        (BackendKind::Noop, "Noop"),
        (BackendKind::Vulkan, "Vulkan"),
        (BackendKind::Metal, "Metal"),
        (BackendKind::Dx12, "Dx12"),
        (BackendKind::Gl, "Gl"),
        (BackendKind::BrowserWebGpu, "BrowserWebGpu"),
    ];
    for (backend, name) in expected {
        let adapter = plain_adapter("a", 1, DeviceClass::Other, backend);
        assert_eq!(render_property_value(&adapter, PhysicalAdapterProperty::Backend), name);
    }
}

#[test]
fn features_and_limits_are_rendered_as_the_gpu_layer_prints_them() {
    let mut adapter = plain_adapter("a", 1, DeviceClass::Other, BackendKind::Gl);
    adapter.features = wgpu::Features::DEPTH_CLIP_CONTROL | wgpu::Features::TIMESTAMP_QUERY;
    adapter.limits = wgpu::Limits::downlevel_defaults();
    assert_eq!(
        render_property_value(&adapter, PhysicalAdapterProperty::Features),
        format!("{:?}", adapter.features)
    );
    assert_eq!(
        render_property_value(&adapter, PhysicalAdapterProperty::Limits),
        format!("{:?}", adapter.limits)
    );
    assert_ne!(
        render_property_value(&adapter, PhysicalAdapterProperty::Limits),
        format!("{:?}", wgpu::Limits::default())
    );
}

#[test]
fn property_lines_without_colour() {
    colored::control::set_override(false);
    let adapter = plain_adapter("Card", 0x1002, DeviceClass::IntegratedGpu, BackendKind::Dx12);
    assert_eq!(
        display_adapter_property(&adapter, PhysicalAdapterProperty::Vendor),
        " + Vendor : of Adapter: [4098]"
    );
    assert_eq!(
        display_adapter_property(&adapter, PhysicalAdapterProperty::DeviceType),
        " + Device Type : of Adapter: [IntegratedGpu]"
    );
    assert_eq!(
        display_adapter_property(&adapter, PhysicalAdapterProperty::Backend),
        " + Backend : of Adapter: [Dx12]"
    );
    assert_eq!(
        display_adapter_property(&adapter, PhysicalAdapterProperty::Integrated),
        " + Inegrated GPU : of Adapter: [IntegratedGpu]"
    );
    assert_eq!(
        display_adapter_property(&adapter, PhysicalAdapterProperty::Features),
        format!(" + Features which supports the GPU : of Adapter: [{:?}]", adapter.features)
    );
}

#[test]
fn legend_and_handle_lines() {
    assert_eq!(
        vendor_legend("NVIDIA", "AMD", "Intel"),
        " - Venfor list: (0x10DE = NVIDIA, 0x1002 = AMD, 0x8086 = Intel). "
    );
    assert_eq!(handle_line("Card"), " + GPU Handle: [Card]");
}

#[test]
fn report_of_no_adapters_is_the_preamble() {
    colored::control::set_override(false);
    let lines = display_evailable_graphic_adapters(&Vec::new());
    assert_eq!(
        lines,
        vec![
            " - Venfor list: (0x10DE = NVIDIA, 0x1002 = AMD, 0x8086 = Intel). ".to_string(),
            " ".to_string(),
        ]
    );
}

#[test]
fn report_of_two_adapters_without_colour() {
    colored::control::set_override(false);
    let adapters = vec![
        plain_adapter("First", 0x10DE, DeviceClass::DiscreteGpu, BackendKind::Vulkan),
        plain_adapter("Second", 0x8086, DeviceClass::IntegratedGpu, BackendKind::Gl),
    ];
    let lines = display_evailable_graphic_adapters(&adapters);
    assert_eq!(lines.len(), 18);
    assert_eq!(lines[0], " - Venfor list: (0x10DE = NVIDIA, 0x1002 = AMD, 0x8086 = Intel). ");
    assert_eq!(lines[1], " ");
    assert_eq!(lines[2], " + GPU Handle: [First]");
    assert_eq!(lines[3], " +-----------------------------------");
    assert_eq!(lines[4], " + ");
    assert_eq!(lines[5], " + Vendor : of Adapter: [4318]");
    assert_eq!(lines[6], " + Device Type : of Adapter: [DiscreteGpu]");
    assert_eq!(lines[7], " + Backend : of Adapter: [Vulkan]");
    assert_eq!(
        lines[8],
        format!(" + Features which supports the GPU : of Adapter: [{:?}]", adapters[0].features)
    );
    assert_eq!(
        lines[9],
        format!(
            " + Max Limits - indication of how powerful the GPU can be. : of Adapter: [{:?}]",
            adapters[0].limits
        )
    );
    assert_eq!(lines[10], " + GPU Handle: [Second]");
    assert_eq!(lines[11], " +-----------------------------------");
    assert_eq!(lines[12], " + ");
    assert_eq!(lines[13], " + Vendor : of Adapter: [32902]");
    assert_eq!(lines[14], " + Device Type : of Adapter: [IntegratedGpu]");
    assert_eq!(lines[15], " + Backend : of Adapter: [Gl]");
}

#[test]
fn reporting_twice_gives_the_same_report() {
    colored::control::set_override(false);
    let adapters = vec![plain_adapter("Only", 0x1002, DeviceClass::Cpu, BackendKind::Noop)];
    let first = display_evailable_graphic_adapters(&adapters);
    let second = display_evailable_graphic_adapters(&adapters);
    assert_eq!(first, second);
    assert_eq!(adapters[0].name, "Only");
    assert_eq!(adapters[0].vendor, 0x1002);
    assert_eq!(adapters[0].backend, BackendKind::Noop);
}

#[test]
fn weak_adapters_get_a_warning_and_others_none() {
    for class in [DeviceClass::IntegratedGpu, DeviceClass::VirtualGpu, DeviceClass::Cpu] {
        let adapter = plain_adapter("a", 1, class, BackendKind::Vulkan);
        let warning = performance_warning(&adapter).unwrap();
        assert_eq!(
            warning,
            format!(
                "Your graphics card may not be capable enough to run the simulation on PowerPreference::HighPerformance. [{:?}]",
                class
            )
        );
    }
    for class in [DeviceClass::DiscreteGpu, DeviceClass::Other] {
        let adapter = plain_adapter("a", 1, class, BackendKind::Vulkan);
        assert_eq!(performance_warning(&adapter), None);
    }
}
