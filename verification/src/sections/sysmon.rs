//! The system monitor: which of the machine's sensors tells the temperature of
//! the processor.

use vstd::prelude::*;

verus! {

/// The label under which a processor reports the temperature of its package:
/// the control temperature of an AMD Zen processor, or the package of an
/// Intel one.
pub open spec fn names_cpu_temperature(label: Seq<char>) -> bool {
    label == "k10temp Tctl"@ || label == "coretemp Package id 0"@
}

/// The place of the first label at or after `from` that names the
/// temperature of the processor, or the length of the list where none does.
pub open spec fn first_cpu_sensor(labels: Seq<String>, from: int) -> int
    decreases labels.len() - from,
{
    if from < 0 || from >= labels.len() {
        labels.len() as int
    } else if names_cpu_temperature(labels[from]@) {
        from
    } else {
        first_cpu_sensor(labels, from + 1)
    }
}

/// Tells whether a sensor of this label measures the processor.
pub fn is_cpu_temperature_label(label: &String) -> (named: bool)
    ensures
        named == names_cpu_temperature(label@),
{
    let amd = "k10temp Tctl".to_owned();
    let intel = "coretemp Package id 0".to_owned();
    *label == amd || *label == intel
}

/// Picks the sensor that tells the temperature of the processor: the first
/// whose label names it. `None` where the machine has no such sensor.
pub fn cpu_temperature_sensor(labels: &Vec<String>) -> (sensor: Option<usize>)
    ensures
        match sensor {
            Some(at) => at == first_cpu_sensor(labels@, 0) && at < labels@.len(),
            None => first_cpu_sensor(labels@, 0) == labels@.len(),
        },
{
    let mut at: usize = 0;
    while at < labels.len()
        invariant
            at <= labels@.len(),
            first_cpu_sensor(labels@, 0) == first_cpu_sensor(labels@, at as int),
        decreases labels@.len() - at,
    {
        if is_cpu_temperature_label(&labels[at]) {
            return Some(at);
        }
        at += 1;
    }
    None
}

} // verus!
