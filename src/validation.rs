use vstd::prelude::*;
use vstd::string::*;

verus! {

pub const KHRONOS_VALIDATION_LAYER: &'static str = "VK_LAYER_KHRONOS_validation";

/// The layers that the diagnostics channel needs.
#[derive(Clone, Copy, Debug)]
pub struct DebugModuleProp {
    pub required_validation_layers: [&'static str; 1],
}

impl Default for DebugModuleProp {
    fn default() -> (r: Self)
        ensures
            r.required_validation_layers@ == seq![KHRONOS_VALIDATION_LAYER],
    {
        let r = DebugModuleProp { required_validation_layers: [KHRONOS_VALIDATION_LAYER] };
        assert(r.required_validation_layers@ =~= seq![KHRONOS_VALIDATION_LAYER]);
        r
    }
}

/// Whether validation is wanted, and with which layers.
#[derive(Clone, Copy, Debug)]
pub struct ValidationInfo {
    pub is_enable: bool,
    pub required_validation_layers: [&'static str; 1],
}

impl ValidationInfo {
    /// The layers to check and enable, where validation is wanted at all.
    pub fn module_prop(&self) -> (r: Option<DebugModuleProp>)
        ensures
            self.is_enable <==> r is Some,
            r matches Some(p) ==> p.required_validation_layers == self.required_validation_layers,
    {
        if self.is_enable {
            Some(DebugModuleProp { required_validation_layers: self.required_validation_layers })
        } else {
            None
        }
    }
}

/// Every name of `required` is among the names of `available`.
pub open spec fn layers_present(required: Seq<&'static str>, available: Seq<String>) -> bool {
    forall|i: int| 0 <= i < required.len() ==> has_name(available, #[trigger] required[i]@)
}

/// `name` is one of the names of `available`.
pub open spec fn has_name(available: Seq<String>, name: Seq<char>) -> bool {
    exists|j: int| 0 <= j < available.len() && (#[trigger] available[j])@ == name
}

fn contains_name(available: &Vec<String>, name: &str) -> (r: bool)
    ensures
        r == has_name(available@, name@),
{
    let wanted = String::from_str(name);
    let mut j: usize = 0;
    while j < available.len()
        invariant
            j <= available@.len(),
            wanted@ == name@,
            forall|k: int| 0 <= k < j ==> (#[trigger] available@[k])@ != name@,
        decreases available@.len() - j,
    {
        if available[j] == wanted {
            return true;
        }
        j = j + 1;
    }
    false
}

/// Whether every layer that `debug_module_prop` requires is among the
/// instance layers that the loader reported.
pub fn check_validation_layer_support(debug_module_prop: &DebugModuleProp, available: &Vec<String>) -> (r: bool)
    ensures
        r == layers_present(debug_module_prop.required_validation_layers@, available@),
{
    let required = debug_module_prop.required_validation_layers.as_slice();
    let mut i: usize = 0;
    while i < required.len()
        invariant
            i <= required@.len(),
            required@ == debug_module_prop.required_validation_layers@,
            forall|k: int| 0 <= k < i ==> has_name(available@, #[trigger] required@[k]@),
        decreases required@.len() - i,
    {
        if !contains_name(available, required[i]) {
            return false;
        }
        i = i + 1;
    }
    true
}

pub const SEVERITY_VERBOSE_BIT: u32 = 0x1;
pub const SEVERITY_INFO_BIT: u32 = 0x10;
pub const SEVERITY_WARNING_BIT: u32 = 0x100;
pub const SEVERITY_ERROR_BIT: u32 = 0x1000;

pub const TYPE_GENERAL_BIT: u32 = 0x1;
pub const TYPE_VALIDATION_BIT: u32 = 0x2;
pub const TYPE_PERFORMANCE_BIT: u32 = 0x4;

/// The severity of a driver message.
#[derive(Clone, Copy, PartialEq, Eq, Structural, Debug)]
pub enum MessageSeverity {
    Verbose,
    Info,
    Warning,
    Error,
    Unknown,
}

/// The category of a driver message.
#[derive(Clone, Copy, PartialEq, Eq, Structural, Debug)]
pub enum MessageCategory {
    General,
    Performance,
    Validation,
    Unknown,
}

/// The severity that a severity word names; a word with other bits, or more
/// than one, names none.
pub open spec fn severity_of(bits: u32) -> MessageSeverity {
    if bits == SEVERITY_VERBOSE_BIT {
        MessageSeverity::Verbose
    } else if bits == SEVERITY_INFO_BIT {
        MessageSeverity::Info
    } else if bits == SEVERITY_WARNING_BIT {
        MessageSeverity::Warning
    } else if bits == SEVERITY_ERROR_BIT {
        MessageSeverity::Error
    } else {
        MessageSeverity::Unknown
    }
}

/// The category that a message-type word names.
pub open spec fn category_of(bits: u32) -> MessageCategory {
    if bits == TYPE_GENERAL_BIT {
        MessageCategory::General
    } else if bits == TYPE_PERFORMANCE_BIT {
        MessageCategory::Performance
    } else if bits == TYPE_VALIDATION_BIT {
        MessageCategory::Validation
    } else {
        MessageCategory::Unknown
    }
}

pub fn message_severity(bits: u32) -> (r: MessageSeverity)
    ensures
        r == severity_of(bits),
{
    if bits == SEVERITY_VERBOSE_BIT {
        MessageSeverity::Verbose
    } else if bits == SEVERITY_INFO_BIT {
        MessageSeverity::Info
    } else if bits == SEVERITY_WARNING_BIT {
        MessageSeverity::Warning
    } else if bits == SEVERITY_ERROR_BIT {
        MessageSeverity::Error
    } else {
        MessageSeverity::Unknown
    }
}

pub fn message_category(bits: u32) -> (r: MessageCategory)
    ensures
        r == category_of(bits),
{
    if bits == TYPE_GENERAL_BIT {
        MessageCategory::General
    } else if bits == TYPE_PERFORMANCE_BIT {
        MessageCategory::Performance
    } else if bits == TYPE_VALIDATION_BIT {
        MessageCategory::Validation
    } else {
        MessageCategory::Unknown
    }
}

pub open spec fn severity_label(s: MessageSeverity) -> Seq<char> {
    match s {
        MessageSeverity::Verbose => "[Verbose]"@,
        MessageSeverity::Info => "[INFO]"@,
        MessageSeverity::Warning => "[Warning]"@,
        MessageSeverity::Error => "[Error]"@,
        MessageSeverity::Unknown => "[Unknown]"@,
    }
}

pub open spec fn category_label(c: MessageCategory) -> Seq<char> {
    match c {
        MessageCategory::General => "[General]"@,
        MessageCategory::Performance => "[Performance]"@,
        MessageCategory::Validation => "[Validation]"@,
        MessageCategory::Unknown => "[Unknown]"@,
    }
}

fn severity_tag(s: MessageSeverity) -> (r: &'static str)
    ensures
        r@ == severity_label(s),
{
    match s {
        MessageSeverity::Verbose => "[Verbose]",
        MessageSeverity::Info => "[INFO]",
        MessageSeverity::Warning => "[Warning]",
        MessageSeverity::Error => "[Error]",
        MessageSeverity::Unknown => "[Unknown]",
    }
}

fn category_tag(c: MessageCategory) -> (r: &'static str)
    ensures
        r@ == category_label(c),
{
    match c {
        MessageCategory::General => "[General]",
        MessageCategory::Performance => "[Performance]",
        MessageCategory::Validation => "[Validation]",
        MessageCategory::Unknown => "[Unknown]",
    }
}

/// The log line of a driver message: `[Debug][<severity>][<category>]<text>`.
pub fn format_debug_message(severity_bits: u32, type_bits: u32, text: &str) -> (r: String)
    ensures
        r@ == "[Debug]"@ + severity_label(severity_of(severity_bits)) + category_label(category_of(type_bits)) + text@,
{
    let mut line = String::from_str("[Debug]");
    line.append(severity_tag(message_severity(severity_bits)));
    line.append(category_tag(message_category(type_bits)));
    line.append(text);
    line
}

/// What the diagnostics messenger listens to, as Vulkan flag words.
#[derive(Clone, Copy, PartialEq, Eq, Structural, Debug)]
pub struct DiagnosticsFilter {
    pub severities: u32,
    pub message_types: u32,
}

/// Warnings and errors, of the general, performance and validation kinds.
pub open spec fn messenger_filter_spec() -> DiagnosticsFilter {
    DiagnosticsFilter {
        severities: SEVERITY_WARNING_BIT | SEVERITY_ERROR_BIT,
        message_types: TYPE_GENERAL_BIT | TYPE_PERFORMANCE_BIT | TYPE_VALIDATION_BIT,
    }
}

pub fn messenger_filter() -> (r: DiagnosticsFilter)
    ensures
        r == messenger_filter_spec(),
{
    DiagnosticsFilter {
        severities: SEVERITY_WARNING_BIT | SEVERITY_ERROR_BIT,
        message_types: TYPE_GENERAL_BIT | TYPE_PERFORMANCE_BIT | TYPE_VALIDATION_BIT,
    }
}

} // verus!
