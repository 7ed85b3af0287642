use spaces::adapter::{
    display_adapter_property, display_evailable_graphic_adapters, AdapterDescriptor, BackendKind,
    DeviceClass, PhysicalAdapterProperty,
};

fn coloured_adapter(name: &str) -> AdapterDescriptor {
    AdapterDescriptor {
        name: name.to_string(),
        vendor: 0x10DE,
        device_class: DeviceClass::DiscreteGpu,
        backend: BackendKind::Vulkan,
        features: wgpu::Features::empty(),
        limits: wgpu::Limits::default(),
    }
}

#[test]
fn property_label_is_painted_yellow_when_colour_is_on() {
    colored::control::set_override(true);
    let adapter = coloured_adapter("Card");
    assert_eq!(
        display_adapter_property(&adapter, PhysicalAdapterProperty::Vendor),
        " + \u{1b}[33mVendor\u{1b}[0m : of Adapter: [4318]"
    );
}

#[test]
fn report_is_painted_when_colour_is_on() {
    colored::control::set_override(true);
    let lines = display_evailable_graphic_adapters(&vec![coloured_adapter("Card")]);
    assert_eq!(lines.len(), 10);
    assert_eq!(
        lines[0],
        " - Venfor list: (0x10DE = \u{1b}[93mNVIDIA\u{1b}[0m, 0x1002 = \u{1b}[93mAMD\u{1b}[0m, 0x8086 = \u{1b}[93mIntel\u{1b}[0m). "
    );
    assert_eq!(lines[1], " ");
    assert_eq!(lines[2], " + GPU Handle: [\u{1b}[33mCard\u{1b}[0m]");
    assert_eq!(lines[6], " + \u{1b}[33mDevice Type\u{1b}[0m : of Adapter: [DiscreteGpu]");
}
