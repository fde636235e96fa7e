use vstd::prelude::*;

use crate::quantity::Quantity;

verus! {

/// The two systems of unit symbols.
#[derive(Debug, Clone, Copy, PartialEq, Eq, Hash, Structural)]
pub enum UnitSystem {
    SI,
    Anglo,
}

/// The metric symbol of each quantity.
pub open spec fn si_text(q: Quantity) -> Seq<char> {
    match q {
        Quantity::Length => "m"@,
        Quantity::Time => "s"@,
        Quantity::Mass => "kg"@,
        Quantity::Current => "A"@,
        Quantity::Temperature => "K"@,
        Quantity::AmountOfSubstance => "mol"@,
        Quantity::LuminousIntensity => "cd"@,
        Quantity::Velocity => "m/s"@,
        Quantity::Force => "N"@,
        Quantity::Energy => "J"@,
        Quantity::Power => "W"@,
        Quantity::Torque => "N·m"@,
    }
}

/// The imperial-derived symbol of each quantity.
pub open spec fn anglo_text(q: Quantity) -> Seq<char> {
    match q {
        Quantity::Length => "ft"@,
        Quantity::Time => "s"@,
        Quantity::Mass => "lb"@,
        Quantity::Current => "A"@,
        Quantity::Temperature => "°F"@,
        Quantity::AmountOfSubstance => "mol"@,
        Quantity::LuminousIntensity => "cd"@,
        Quantity::Velocity => "ft/s"@,
        Quantity::Force => "lbf"@,
        Quantity::Energy => "ft·lbf"@,
        Quantity::Power => "hp"@,
        Quantity::Torque => "ft·lbf"@,
    }
}

/// The symbol of a quantity in the chosen system.
pub open spec fn symbol_text(q: Quantity, system: UnitSystem) -> Seq<char> {
    match system {
        UnitSystem::SI => si_text(q),
        UnitSystem::Anglo => anglo_text(q),
    }
}

/// The metric symbol of `unit_type`; every quantity has one.
pub fn get_si_symbol(unit_type: Quantity) -> (r: Option<&'static str>)
    ensures
        r is Some,
        r->0@ == si_text(unit_type),
{
    let s = match unit_type {
        Quantity::Length => "m",
        Quantity::Time => "s",
        Quantity::Mass => "kg",
        Quantity::Current => "A",
        Quantity::Temperature => "K",
        Quantity::AmountOfSubstance => "mol",
        Quantity::LuminousIntensity => "cd",
        Quantity::Velocity => "m/s",
        Quantity::Force => "N",
        Quantity::Energy => "J",
        Quantity::Power => "W",
        Quantity::Torque => "N·m",
    };
    Some(s)
}

/// The imperial-derived symbol of `unit_type`; every quantity has one.
pub fn get_anglo_symbol(unit_type: Quantity) -> (r: Option<&'static str>)
    ensures
        r is Some,
        r->0@ == anglo_text(unit_type),
{
    let s = match unit_type {
        Quantity::Length => "ft",
        Quantity::Time => "s",
        Quantity::Mass => "lb",
        Quantity::Current => "A",
        Quantity::Temperature => "°F",
        Quantity::AmountOfSubstance => "mol",
        Quantity::LuminousIntensity => "cd",
        Quantity::Velocity => "ft/s",
        Quantity::Force => "lbf",
        Quantity::Energy => "ft·lbf",
        Quantity::Power => "hp",
        Quantity::Torque => "ft·lbf",
    };
    Some(s)
}

/// The symbol of `unit_type` in `system`, with no fallback to the other system.
pub fn get_symbol(unit_type: Quantity, system: UnitSystem) -> (r: Option<&'static str>)
    ensures
        r is Some,
        r->0@ == symbol_text(unit_type, system),
{
    match system {
        UnitSystem::SI => get_si_symbol(unit_type),
        UnitSystem::Anglo => get_anglo_symbol(unit_type),
    }
}

} // verus!
