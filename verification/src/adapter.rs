//! Adapter descriptors and the diagnostic report that lists them.

use vstd::prelude::*;
use vstd::string::*;

verus! {

/// `wgpu::Features`, carried through the library as an opaque value.
#[verifier::external_type_specification]
#[verifier::external_body]
pub struct ExFeatures(wgpu::Features);

/// `wgpu::Limits`, carried through the library as an opaque value.
#[verifier::external_type_specification]
#[verifier::external_body]
pub struct ExLimits(wgpu::Limits);

/// The class of a physical device.
#[derive(Clone, Copy, Debug, PartialEq, Eq, Structural)]
pub enum DeviceClass {
    /// Other or unknown.
    Other,
    /// Integrated GPU sharing memory with the CPU.
    IntegratedGpu,
    /// Discrete GPU with memory of its own.
    DiscreteGpu,
    /// Virtual or hosted GPU.
    VirtualGpu,
    /// Software rendering on the CPU.
    Cpu,
}

/// The graphics API through which an adapter is reached.
#[derive(Clone, Copy, Debug, PartialEq, Eq, Structural)]
pub enum BackendKind {
    Noop,
    Vulkan,
    Metal,
    Dx12,
    Gl,
    BrowserWebGpu,
}

/// A physical adapter as one enumeration saw it.
#[derive(Debug)]
pub struct AdapterDescriptor {
    pub name: String,
    pub vendor: u32,
    pub device_class: DeviceClass,
    pub backend: BackendKind,
    pub features: wgpu::Features,
    pub limits: wgpu::Limits,
}

/// A property of an adapter that the diagnostic report can show.
#[derive(Clone, Copy, Debug, PartialEq, Eq, Structural)]
pub enum PhysicalAdapterProperty {
    Vendor,
    DeviceType,
    Backend,
    Features,
    Limits,
    Integrated,
}

/// The name of a device class as the report prints it.
pub open spec fn device_class_name(class: DeviceClass) -> Seq<char> {
    match class {
        DeviceClass::Other => "Other"@,
        DeviceClass::IntegratedGpu => "IntegratedGpu"@,
        DeviceClass::DiscreteGpu => "DiscreteGpu"@,
        DeviceClass::VirtualGpu => "VirtualGpu"@,
        DeviceClass::Cpu => "Cpu"@,
    }
}

/// The name of a backend as the report prints it.
pub open spec fn backend_name(backend: BackendKind) -> Seq<char> {
    match backend {
        BackendKind::Noop => "Noop"@,
        BackendKind::Vulkan => "Vulkan"@,
        BackendKind::Metal => "Metal"@,
        BackendKind::Dx12 => "Dx12"@,
        BackendKind::Gl => "Gl"@,
        BackendKind::BrowserWebGpu => "BrowserWebGpu"@,
    }
}

/// The character for one decimal digit.
pub open spec fn digit_char(digit: nat) -> char {
    if digit == 0 {
        '0'
    } else if digit == 1 {
        '1'
    } else if digit == 2 {
        '2'
    } else if digit == 3 {
        '3'
    } else if digit == 4 {
        '4'
    } else if digit == 5 {
        '5'
    } else if digit == 6 {
        '6'
    } else if digit == 7 {
        '7'
    } else if digit == 8 {
        '8'
    } else {
        '9'
    }
}

/// A number in decimal, without sign, padding or leading zeros.
pub open spec fn decimal_text(n: nat) -> Seq<char>
    decreases n,
{
    if n < 10 {
        seq![digit_char(n)]
    } else {
        decimal_text(n / 10).push(digit_char(n % 10))
    }
}

/// Formats a class with the `Debug` impl that `wgpu::DeviceType` derives, which
/// prints the variant's name.
#[verifier::external_body]
fn device_class_debug(class: DeviceClass) -> (text: String)
    ensures
        text@ == device_class_name(class),
{
    let device_type = match class {
        DeviceClass::Other => wgpu::DeviceType::Other,
        DeviceClass::IntegratedGpu => wgpu::DeviceType::IntegratedGpu,
        DeviceClass::DiscreteGpu => wgpu::DeviceType::DiscreteGpu,
        DeviceClass::VirtualGpu => wgpu::DeviceType::VirtualGpu,
        DeviceClass::Cpu => wgpu::DeviceType::Cpu,
    };
    format!("{:?}", device_type)
}

/// Formats a backend with the `Debug` impl that `wgpu::Backend` derives, which
/// prints the variant's name.
#[verifier::external_body]
fn backend_debug(backend: BackendKind) -> (text: String)
    ensures
        text@ == backend_name(backend),
{
    let backend = match backend {
        BackendKind::Noop => wgpu::Backend::Noop,
        BackendKind::Vulkan => wgpu::Backend::Vulkan,
        BackendKind::Metal => wgpu::Backend::Metal,
        BackendKind::Dx12 => wgpu::Backend::Dx12,
        BackendKind::Gl => wgpu::Backend::Gl,
        BackendKind::BrowserWebGpu => wgpu::Backend::BrowserWebGpu,
    };
    format!("{:?}", backend)
}

/// Formats a feature set with the `Debug` impl of `wgpu::Features`. The set is
/// opaque here, so nothing is claimed of the text.
#[verifier::external_body]
fn features_debug(features: &wgpu::Features) -> (text: String) {
    format!("{:?}", features)
}

/// Formats resource limits with the `Debug` impl that `wgpu::Limits` derives.
/// The limits are opaque here, so nothing is claimed of the text.
#[verifier::external_body]
fn limits_debug(limits: &wgpu::Limits) -> (text: String) {
    format!("{:?}", limits)
}

/// Formats a number with std's `Debug` for `u32`, which prints it in decimal.
#[verifier::external_body]
fn u32_debug(value: u32) -> (text: String)
    ensures
        text@ == decimal_text(value as nat),
{
    format!("{:?}", value)
}

/// Renders text in yellow with `colored::Colorize::yellow` and the `Display`
/// impl of `colored::ColoredString`. Whether escape sequences are added depends
/// on the terminal and the environment, so nothing is claimed of the text.
#[verifier::external_body]
fn paint_yellow(text: &str) -> (painted: String) {
    format!("{}", colored::Colorize::yellow(text))
}

/// Renders text in bright yellow with `colored::Colorize::bright_yellow` and
/// the `Display` impl of `colored::ColoredString`. Whether escape sequences are
/// added depends on the terminal and the environment, so nothing is claimed of
/// the text.
#[verifier::external_body]
fn paint_bright_yellow(text: &str) -> (painted: String) {
    format!("{}", colored::Colorize::bright_yellow(text))
}

impl DeviceClass {
    /// Whether an adapter of this class may be too weak for a request that
    /// prefers high performance: integrated, virtual and software devices.
    pub open spec fn is_low_power(self) -> bool {
        self == DeviceClass::IntegratedGpu || self == DeviceClass::VirtualGpu || self
            == DeviceClass::Cpu
    }
}

impl PhysicalAdapterProperty {
    /// The label under which the report shows this property.
    pub open spec fn label(self) -> Seq<char> {
        match self {
            PhysicalAdapterProperty::Vendor => "Vendor"@,
            PhysicalAdapterProperty::DeviceType => "Device Type"@,
            PhysicalAdapterProperty::Backend => "Backend"@,
            PhysicalAdapterProperty::Features => "Features which supports the GPU"@,
            PhysicalAdapterProperty::Limits =>
                "Max Limits - indication of how powerful the GPU can be."@,
            PhysicalAdapterProperty::Integrated => "Inegrated GPU"@,
        }
    }

    /// The properties that the report lists for each adapter, in order.
    pub open spec fn reported() -> Seq<PhysicalAdapterProperty> {
        seq![
            PhysicalAdapterProperty::Vendor,
            PhysicalAdapterProperty::DeviceType,
            PhysicalAdapterProperty::Backend,
            PhysicalAdapterProperty::Features,
            PhysicalAdapterProperty::Limits,
        ]
    }

    /// The label of this property.
    pub fn to_string(&self) -> (text: String)
        ensures
            text@ == self.label(),
    {
        match self {
            PhysicalAdapterProperty::Vendor => String::from_str("Vendor"),
            PhysicalAdapterProperty::DeviceType => String::from_str("Device Type"),
            PhysicalAdapterProperty::Backend => String::from_str("Backend"),
            PhysicalAdapterProperty::Features => String::from_str(
                "Features which supports the GPU",
            ),
            PhysicalAdapterProperty::Limits => String::from_str(
                "Max Limits - indication of how powerful the GPU can be.",
            ),
            PhysicalAdapterProperty::Integrated => String::from_str("Inegrated GPU"),
        }
    }

    /// The properties that the report lists for each adapter, in order.
    pub fn iter() -> (properties: Vec<PhysicalAdapterProperty>)
        ensures
            properties@ == PhysicalAdapterProperty::reported(),
    {
        let mut properties: Vec<PhysicalAdapterProperty> = Vec::new();
        properties.push(PhysicalAdapterProperty::Vendor);
        properties.push(PhysicalAdapterProperty::DeviceType);
        properties.push(PhysicalAdapterProperty::Backend);
        properties.push(PhysicalAdapterProperty::Features);
        properties.push(PhysicalAdapterProperty::Limits);
        properties
    }
}

/// What the report shows for `property` of `adapter`, where the value is one
/// the library can read. Feature sets and limits are opaque: their text is
/// whatever the GPU layer prints for them.
pub open spec fn property_value_text(
    adapter: AdapterDescriptor,
    property: PhysicalAdapterProperty,
) -> Option<Seq<char>> {
    match property {
        PhysicalAdapterProperty::Vendor => Some(decimal_text(adapter.vendor as nat)),
        PhysicalAdapterProperty::DeviceType => Some(device_class_name(adapter.device_class)),
        PhysicalAdapterProperty::Backend => Some(backend_name(adapter.backend)),
        PhysicalAdapterProperty::Features => None,
        PhysicalAdapterProperty::Limits => None,
        PhysicalAdapterProperty::Integrated => Some(device_class_name(adapter.device_class)),
    }
}

/// A report line for one property: the label as painted, then the value.
pub open spec fn property_line_text(label: Seq<char>, value: Seq<char>) -> Seq<char> {
    " + "@ + label + " : of Adapter: ["@ + value + "]"@
}

/// `line` is a report line for `property` of `adapter`: it has the shape of
/// [`property_line_text`] for some painting of the label, and shows the
/// property's value wherever the library can read it.
pub open spec fn is_property_line(
    line: Seq<char>,
    adapter: AdapterDescriptor,
    property: PhysicalAdapterProperty,
) -> bool {
    exists|label: Seq<char>, value: Seq<char>|
        {
            &&& line == #[trigger] property_line_text(label, value)
            &&& property_value_text(adapter, property) matches Some(text) ==> value == text
        }
}

/// Builds a report line from a painted label and a rendered value.
pub fn property_line(label: &str, value: &str) -> (line: String)
    ensures
        line@ == property_line_text(label@, value@),
{
    let mut line = String::from_str(" + ");
    line.append(label);
    line.append(" : of Adapter: [");
    line.append(value);
    line.append("]");
    line
}

/// Renders the value of one property of an adapter.
pub fn render_property_value(adapter: &AdapterDescriptor, property: PhysicalAdapterProperty) -> (text:
    String)
    ensures
        property_value_text(*adapter, property) matches Some(expected) ==> text@ == expected,
{
    match property {
        PhysicalAdapterProperty::Vendor => u32_debug(adapter.vendor),
        PhysicalAdapterProperty::DeviceType => device_class_debug(adapter.device_class),
        PhysicalAdapterProperty::Backend => backend_debug(adapter.backend),
        PhysicalAdapterProperty::Features => features_debug(&adapter.features),
        PhysicalAdapterProperty::Limits => limits_debug(&adapter.limits),
        PhysicalAdapterProperty::Integrated => device_class_debug(adapter.device_class),
    }
}

/// The report line for one property of an adapter, its label painted yellow.
pub fn display_adapter_property(
    adapter: &AdapterDescriptor,
    property: PhysicalAdapterProperty,
) -> (line: String)
    ensures
        is_property_line(line@, *adapter, property),
{
    let value = render_property_value(adapter, property);
    let label = paint_yellow(property.to_string().as_str());
    let line = property_line(label.as_str(), value.as_str());
    assert(line@ == property_line_text(label@, value@));
    line
}

/// The warning for an adapter that may be too weak for a high-performance
/// request.
pub open spec fn performance_warning_text(class: DeviceClass) -> Seq<char> {
    "Your graphics card may not be capable enough to run the simulation on PowerPreference::HighPerformance. ["@
        + device_class_name(class) + "]"@
}

/// The warning to log for a chosen adapter: one for integrated, virtual and
/// software devices, none for the others. The warning never stops startup.
pub fn performance_warning(adapter: &AdapterDescriptor) -> (warning: Option<String>)
    ensures
        match warning {
            Some(text) => adapter.device_class.is_low_power() && text@
                == performance_warning_text(adapter.device_class),
            None => !adapter.device_class.is_low_power(),
        },
{
    match adapter.device_class {
        DeviceClass::IntegratedGpu | DeviceClass::VirtualGpu | DeviceClass::Cpu => {
            let mut text = String::from_str(
                "Your graphics card may not be capable enough to run the simulation on PowerPreference::HighPerformance. [",
            );
            let class = device_class_debug(adapter.device_class);
            text.append(class.as_str());
            text.append("]");
            Some(text)
        },
        _ => None,
    }
}

/// The first line of the report: the vendor ids worth knowing, each vendor's
/// name as painted.
pub open spec fn vendor_legend_text(nvidia: Seq<char>, amd: Seq<char>, intel: Seq<char>) -> Seq<
    char,
> {
    " - Venfor list: (0x10DE = "@ + nvidia + ", 0x1002 = "@ + amd + ", 0x8086 = "@ + intel
        + "). "@
}

/// The line that opens an adapter's section, the device name as painted.
pub open spec fn handle_line_text(name: Seq<char>) -> Seq<char> {
    " + GPU Handle: ["@ + name + "]"@
}

/// Lines of the report that come before the first adapter.
pub open spec fn report_preamble_len() -> int {
    2
}

/// Lines of the report for each adapter.
pub open spec fn report_section_len() -> int {
    3 + PhysicalAdapterProperty::reported().len() as int
}

/// The lines of `lines` from `base` on are the section for `adapter`: the
/// device name, a rule, a spacer, then one line for each reported property.
pub open spec fn is_adapter_section(lines: Seq<String>, base: int, adapter: AdapterDescriptor) -> bool {
    &&& 0 <= base
    &&& base + report_section_len() <= lines.len()
    &&& exists|name: Seq<char>| lines[base]@ == #[trigger] handle_line_text(name)
    &&& lines[base + 1]@ == " +-----------------------------------"@
    &&& lines[base + 2]@ == " + "@
    &&& forall|p: int|
        0 <= p < PhysicalAdapterProperty::reported().len() ==> is_property_line(
            lines[base + 3 + p]@,
            adapter,
            #[trigger] PhysicalAdapterProperty::reported()[p],
        )
}

/// `lines` is the diagnostic report for `adapters`: the vendor legend, a
/// spacer, then one section for each adapter in the order given.
pub open spec fn is_adapter_report(lines: Seq<String>, adapters: Seq<AdapterDescriptor>) -> bool {
    &&& lines.len() == report_preamble_len() + report_section_len() * adapters.len()
    &&& exists|nvidia: Seq<char>, amd: Seq<char>, intel: Seq<char>|
        lines[0]@ == #[trigger] vendor_legend_text(nvidia, amd, intel)
    &&& lines[1]@ == " "@
    &&& forall|k: int|
        0 <= k < adapters.len() ==> is_adapter_section(
            lines,
            report_preamble_len() + report_section_len() * k,
            #[trigger] adapters[k],
        )
}

/// Builds the vendor legend from the painted vendor names.
pub fn vendor_legend(nvidia: &str, amd: &str, intel: &str) -> (line: String)
    ensures
        line@ == vendor_legend_text(nvidia@, amd@, intel@),
{
    let mut line = String::from_str(" - Venfor list: (0x10DE = ");
    line.append(nvidia);
    line.append(", 0x1002 = ");
    line.append(amd);
    line.append(", 0x8086 = ");
    line.append(intel);
    line.append("). ");
    line
}

/// Builds the line that opens an adapter's section from the painted name.
pub fn handle_line(name: &str) -> (line: String)
    ensures
        line@ == handle_line_text(name@),
{
    let mut line = String::from_str(" + GPU Handle: [");
    line.append(name);
    line.append("]");
    line
}

/// Appends the section for one adapter to a report.
fn push_adapter_section(lines: &mut Vec<String>, adapter: &AdapterDescriptor)
    ensures
        final(lines)@.len() == old(lines)@.len() + report_section_len(),
        forall|i: int| 0 <= i < old(lines)@.len() ==> final(lines)@[i] == old(lines)@[i],
        is_adapter_section(final(lines)@, old(lines)@.len() as int, *adapter),
{
    let ghost base = lines@.len() as int;
    let name = paint_yellow(adapter.name.as_str());
    let opening = handle_line(name.as_str());
    assert(opening@ == handle_line_text(name@));
    lines.push(opening);
    lines.push(String::from_str(" +-----------------------------------"));
    lines.push(String::from_str(" + "));
    let properties = PhysicalAdapterProperty::iter();
    let mut p: usize = 0;
    while p < properties.len()
        invariant
            p <= properties.len(),
            properties@ == PhysicalAdapterProperty::reported(),
            base == old(lines)@.len(),
            lines@.len() == base + 3 + p,
            forall|i: int| 0 <= i < base ==> lines@[i] == old(lines)@[i],
            exists|name: Seq<char>| lines@[base]@ == #[trigger] handle_line_text(name),
            lines@[base + 1]@ == " +-----------------------------------"@,
            lines@[base + 2]@ == " + "@,
            forall|q: int|
                0 <= q < p ==> is_property_line(
                    lines@[base + 3 + q]@,
                    *adapter,
                    #[trigger] PhysicalAdapterProperty::reported()[q],
                ),
        decreases properties.len() - p,
    {
        let line = display_adapter_property(adapter, properties[p]);
        lines.push(line);
        p = p + 1;
    }
}

/// The diagnostic report for the adapters that one enumeration found, one
/// log line per entry. The report is for reading only: nothing in it feeds
/// the later choice of an adapter.
pub fn display_evailable_graphic_adapters(adapters: &Vec<AdapterDescriptor>) -> (lines: Vec<
    String,
>)
    ensures
        is_adapter_report(lines@, adapters@),
{
    let mut lines: Vec<String> = Vec::new();
    let nvidia = paint_bright_yellow("NVIDIA");
    let amd = paint_bright_yellow("AMD");
    let intel = paint_bright_yellow("Intel");
    let legend = vendor_legend(nvidia.as_str(), amd.as_str(), intel.as_str());
    assert(legend@ == vendor_legend_text(nvidia@, amd@, intel@));
    lines.push(legend);
    lines.push(String::from_str(" "));
    let mut k: usize = 0;
    while k < adapters.len()
        invariant
            k <= adapters.len(),
            lines@.len() == report_preamble_len() + report_section_len() * k,
            exists|nvidia: Seq<char>, amd: Seq<char>, intel: Seq<char>|
                lines@[0]@ == #[trigger] vendor_legend_text(nvidia, amd, intel),
            lines@[1]@ == " "@,
            forall|j: int|
                0 <= j < k ==> is_adapter_section(
                    lines@,
                    report_preamble_len() + report_section_len() * j,
                    #[trigger] adapters@[j],
                ),
        decreases adapters.len() - k,
    {
        let ghost before = lines@;
        push_adapter_section(&mut lines, &adapters[k]);
        proof {
            assert(report_section_len() == 8);
            assert forall|j: int| 0 <= j < k + 1 implies is_adapter_section(
                lines@,
                report_preamble_len() + report_section_len() * j,
                #[trigger] adapters@[j],
            ) by {
                if j < k {
                    lemma_section_survives_growth(
                        before,
                        lines@,
                        report_preamble_len() + report_section_len() * j,
                        adapters@[j],
                    );
                }
            }
        }
        k = k + 1;
    }
    lines
}

/// A section of a report is still there after lines are appended to it.
proof fn lemma_section_survives_growth(
    before: Seq<String>,
    after: Seq<String>,
    base: int,
    adapter: AdapterDescriptor,
)
    requires
        is_adapter_section(before, base, adapter),
        before.len() <= after.len(),
        forall|i: int| 0 <= i < before.len() ==> after[i] == before[i],
    ensures
        is_adapter_section(after, base, adapter),
{
    let name = choose|name: Seq<char>| before[base]@ == #[trigger] handle_line_text(name);
    assert(after[base]@ == handle_line_text(name));
    assert forall|p: int| 0 <= p < PhysicalAdapterProperty::reported().len() implies is_property_line(
        after[base + 3 + p]@,
        adapter,
        #[trigger] PhysicalAdapterProperty::reported()[p],
    ) by {
        assert(after[base + 3 + p] == before[base + 3 + p]);
    }
}

} // verus!
