//! The register map: the four configuration registers and the attributes
//! that live in their bit fields.
use vstd::prelude::*;

use crate::field::{mask_of, Field};

verus! {

/// Single-bit masks of the one-bit fields, by register.
pub struct BitFlags;

impl BitFlags {
    /// CONFIG0: programmable gain amplifier bypass.
    pub const PB: u8 = 0b0000_0001;

    /// CONFIG1: burn-out current sources.
    pub const BCS: u8 = 0b0000_0001;

    /// CONFIG1: temperature sensor mode.
    pub const TS: u8 = 0b0000_0010;

    /// CONFIG1: conversion mode.
    pub const CM: u8 = 0b0000_0100;

    /// CONFIG2: low-side power switch.
    pub const PSW: u8 = 0b0000_1000;

    /// CONFIG3: data-ready mode.
    pub const DRDYM: u8 = 0b0000_0010;
}

/// The four configuration registers, by address.
#[derive(Debug, Copy, Clone, PartialEq, Eq, Structural)]
pub enum Register {
    CONFIG0,
    CONFIG1,
    CONFIG2,
    CONFIG3,
}

impl Register {
    /// The register's address, 0 to 3.
    pub open spec fn spec_addr(self) -> u8 {
        match self {
            Register::CONFIG0 => 0,
            Register::CONFIG1 => 1,
            Register::CONFIG2 => 2,
            Register::CONFIG3 => 3,
        }
    }

    /// The register's address, 0 to 3.
    pub fn addr(self) -> (r: u8)
        ensures
            r == self.spec_addr(),
            r <= 3,
    {
        match self {
            Register::CONFIG0 => 0,
            Register::CONFIG1 => 1,
            Register::CONFIG2 => 2,
            Register::CONFIG3 => 3,
        }
    }
}

/// Programmable gain amplifier setting (CONFIG0 bits 3-1).
#[allow(non_camel_case_types)]
#[derive(Debug, Copy, Clone, PartialEq, Eq, Structural, Default)]
pub enum PGA {
    #[default]
    Gain1,
    Gain2,
    Gain4,
    Gain8,
    Gain16,
    Gain32,
    Gain64,
    Gain128,
}

impl PGA {
    /// The raw 3-bit gain code.
    pub fn bits(self) -> (r: u8)
        ensures
            r == self.spec_code(),
    {
        match self {
            PGA::Gain1 => 0,
            PGA::Gain2 => 1,
            PGA::Gain4 => 2,
            PGA::Gain8 => 3,
            PGA::Gain16 => 4,
            PGA::Gain32 => 5,
            PGA::Gain64 => 6,
            PGA::Gain128 => 7,
        }
    }

    /// The gain code at its position in CONFIG0.
    pub fn bits_on_pos(self) -> (r: u8)
        ensures
            r == self.spec_code() << 1u8,
    {
        self.bits() << 1u8
    }
}

impl Field for PGA {
    open spec fn spec_code(self) -> u8 {
        match self {
            PGA::Gain1 => 0,
            PGA::Gain2 => 1,
            PGA::Gain4 => 2,
            PGA::Gain8 => 3,
            PGA::Gain16 => 4,
            PGA::Gain32 => 5,
            PGA::Gain64 => 6,
            PGA::Gain128 => 7,
        }
    }

    open spec fn spec_from_code(code: u8) -> Option<PGA> {
        match code {
            0 => Some(PGA::Gain1),
            1 => Some(PGA::Gain2),
            2 => Some(PGA::Gain4),
            3 => Some(PGA::Gain8),
            4 => Some(PGA::Gain16),
            5 => Some(PGA::Gain32),
            6 => Some(PGA::Gain64),
            7 => Some(PGA::Gain128),
            _ => None,
        }
    }

    open spec fn spec_register() -> Register {
        Register::CONFIG0
    }

    open spec fn spec_offset() -> u8 {
        1
    }

    open spec fn spec_low_mask() -> u8 {
        7
    }

    proof fn lemma_layout() {
    }

    proof fn lemma_code(self) {
    }

    fn register() -> (r: Register) {
        Register::CONFIG0
    }

    fn offset() -> (r: u8) {
        1
    }

    fn low_mask() -> (r: u8) {
        7
    }

    fn code(self) -> (r: u8) {
        self.bits()
    }

    fn from_code(code: u8) -> (r: Option<PGA>) {
        match code {
            0 => Some(PGA::Gain1),
            1 => Some(PGA::Gain2),
            2 => Some(PGA::Gain4),
            3 => Some(PGA::Gain8),
            4 => Some(PGA::Gain16),
            5 => Some(PGA::Gain32),
            6 => Some(PGA::Gain64),
            7 => Some(PGA::Gain128),
            _ => None,
        }
    }
}

/// Input multiplexer selection (CONFIG0 bits 7-4).
#[allow(non_camel_case_types)]
#[derive(Debug, Copy, Clone, PartialEq, Eq, Structural, Default)]
pub enum Channel {
    #[default]
    DIFF_AIN0_AIN1,
    DIFF_AIN0_AIN2,
    DIFF_AIN0_AIN3,
    DIFF_AIN1_AIN2,
    DIFF_AIN1_AIN3,
    DIFF_AIN2_AIN3,
    DIFF_AIN1_AIN0,
    DIFF_AIN3_AIN2,
    AIN0,
    AIN1,
    AIN2,
    AIN3,
    VREFDIFF4,
    AVDIFF4,
    VCC2,
    RESERVED,
}

impl Channel {
    /// The raw input multiplexer code.
    pub fn bits(self) -> (r: u8)
        ensures
            r == self.spec_code(),
    {
        match self {
            Channel::DIFF_AIN0_AIN1 => 0,
            Channel::DIFF_AIN0_AIN2 => 1,
            Channel::DIFF_AIN0_AIN3 => 2,
            Channel::DIFF_AIN1_AIN2 => 3,
            Channel::DIFF_AIN1_AIN3 => 4,
            Channel::DIFF_AIN2_AIN3 => 5,
            Channel::DIFF_AIN1_AIN0 => 6,
            Channel::DIFF_AIN3_AIN2 => 7,
            Channel::AIN0 => 8,
            Channel::AIN1 => 9,
            Channel::AIN2 => 10,
            Channel::AIN3 => 11,
            Channel::VREFDIFF4 => 12,
            Channel::AVDIFF4 => 13,
            Channel::VCC2 => 14,
            Channel::RESERVED => 15,
        }
    }

    /// The input multiplexer code at its position in CONFIG0.
    pub fn bits_on_pos(self) -> (r: u8)
        ensures
            r == self.spec_code() << 4u8,
    {
        proof {
            self.lemma_code();
        }
        self.bits() << 4u8
    }
}

impl Field for Channel {
    open spec fn spec_code(self) -> u8 {
        match self {
            Channel::DIFF_AIN0_AIN1 => 0,
            Channel::DIFF_AIN0_AIN2 => 1,
            Channel::DIFF_AIN0_AIN3 => 2,
            Channel::DIFF_AIN1_AIN2 => 3,
            Channel::DIFF_AIN1_AIN3 => 4,
            Channel::DIFF_AIN2_AIN3 => 5,
            Channel::DIFF_AIN1_AIN0 => 6,
            Channel::DIFF_AIN3_AIN2 => 7,
            Channel::AIN0 => 8,
            Channel::AIN1 => 9,
            Channel::AIN2 => 10,
            Channel::AIN3 => 11,
            Channel::VREFDIFF4 => 12,
            Channel::AVDIFF4 => 13,
            Channel::VCC2 => 14,
            Channel::RESERVED => 15,
        }
    }

    open spec fn spec_from_code(code: u8) -> Option<Channel> {
        match code {
            0 => Some(Channel::DIFF_AIN0_AIN1),
            1 => Some(Channel::DIFF_AIN0_AIN2),
            2 => Some(Channel::DIFF_AIN0_AIN3),
            3 => Some(Channel::DIFF_AIN1_AIN2),
            4 => Some(Channel::DIFF_AIN1_AIN3),
            5 => Some(Channel::DIFF_AIN2_AIN3),
            6 => Some(Channel::DIFF_AIN1_AIN0),
            7 => Some(Channel::DIFF_AIN3_AIN2),
            8 => Some(Channel::AIN0),
            9 => Some(Channel::AIN1),
            10 => Some(Channel::AIN2),
            11 => Some(Channel::AIN3),
            12 => Some(Channel::VREFDIFF4),
            13 => Some(Channel::AVDIFF4),
            14 => Some(Channel::VCC2),
            15 => Some(Channel::RESERVED),
            _ => None,
        }
    }

    open spec fn spec_register() -> Register {
        Register::CONFIG0
    }

    open spec fn spec_offset() -> u8 {
        4
    }

    open spec fn spec_low_mask() -> u8 {
        15
    }

    proof fn lemma_layout() {
    }

    proof fn lemma_code(self) {
    }

    fn register() -> (r: Register) {
        Register::CONFIG0
    }

    fn offset() -> (r: u8) {
        4
    }

    fn low_mask() -> (r: u8) {
        15
    }

    fn code(self) -> (r: u8) {
        self.bits()
    }

    fn from_code(code: u8) -> (r: Option<Channel>) {
        match code {
            0 => Some(Channel::DIFF_AIN0_AIN1),
            1 => Some(Channel::DIFF_AIN0_AIN2),
            2 => Some(Channel::DIFF_AIN0_AIN3),
            3 => Some(Channel::DIFF_AIN1_AIN2),
            4 => Some(Channel::DIFF_AIN1_AIN3),
            5 => Some(Channel::DIFF_AIN2_AIN3),
            6 => Some(Channel::DIFF_AIN1_AIN0),
            7 => Some(Channel::DIFF_AIN3_AIN2),
            8 => Some(Channel::AIN0),
            9 => Some(Channel::AIN1),
            10 => Some(Channel::AIN2),
            11 => Some(Channel::AIN3),
            12 => Some(Channel::VREFDIFF4),
            13 => Some(Channel::AVDIFF4),
            14 => Some(Channel::VCC2),
            15 => Some(Channel::RESERVED),
            _ => None,
        }
    }
}

/// Programmable gain amplifier bypass (CONFIG0 bit 0); `ENABLED` keeps the amplifier in the signal path.
#[allow(non_camel_case_types)]
#[derive(Debug, Copy, Clone, PartialEq, Eq, Structural, Default)]
pub enum PGA_BYPASS {
    #[default]
    ENABLED,
    DISABLED,
}

impl Field for PGA_BYPASS {
    open spec fn spec_code(self) -> u8 {
        match self {
            PGA_BYPASS::ENABLED => 0,
            PGA_BYPASS::DISABLED => 1,
        }
    }

    open spec fn spec_from_code(code: u8) -> Option<PGA_BYPASS> {
        match code {
            0 => Some(PGA_BYPASS::ENABLED),
            1 => Some(PGA_BYPASS::DISABLED),
            _ => None,
        }
    }

    open spec fn spec_register() -> Register {
        Register::CONFIG0
    }

    open spec fn spec_offset() -> u8 {
        0
    }

    open spec fn spec_low_mask() -> u8 {
        1
    }

    proof fn lemma_layout() {
    }

    proof fn lemma_code(self) {
    }

    fn register() -> (r: Register) {
        Register::CONFIG0
    }

    fn offset() -> (r: u8) {
        0
    }

    fn low_mask() -> (r: u8) {
        1
    }

    fn code(self) -> (r: u8) {
        match self {
            PGA_BYPASS::ENABLED => 0,
            PGA_BYPASS::DISABLED => 1,
        }
    }

    fn from_code(code: u8) -> (r: Option<PGA_BYPASS>) {
        match code {
            0 => Some(PGA_BYPASS::ENABLED),
            1 => Some(PGA_BYPASS::DISABLED),
            _ => None,
        }
    }
}

/// Data rate in normal mode (CONFIG1 bits 7-5).
#[allow(non_camel_case_types)]
#[derive(Debug, Copy, Clone, PartialEq, Eq, Structural, Default)]
pub enum DataRate {
    #[default]
    SPS20,
    SPS45,
    SPS90,
    SPS175,
    SPS330,
    SPS600,
    SPS1000,
}

impl DataRate {
    /// The raw data rate code.
    pub fn bits(self) -> (r: u8)
        ensures
            r == self.spec_code(),
    {
        match self {
            DataRate::SPS20 => 0,
            DataRate::SPS45 => 1,
            DataRate::SPS90 => 2,
            DataRate::SPS175 => 3,
            DataRate::SPS330 => 4,
            DataRate::SPS600 => 5,
            DataRate::SPS1000 => 6,
        }
    }

    /// The data rate code at its position in CONFIG1.
    pub fn bits_on_pos(self) -> (r: u8)
        ensures
            r == self.spec_code() << 5u8,
    {
        proof {
            self.lemma_code();
        }
        self.bits() << 5u8
    }
}

impl Field for DataRate {
    open spec fn spec_code(self) -> u8 {
        match self {
            DataRate::SPS20 => 0,
            DataRate::SPS45 => 1,
            DataRate::SPS90 => 2,
            DataRate::SPS175 => 3,
            DataRate::SPS330 => 4,
            DataRate::SPS600 => 5,
            DataRate::SPS1000 => 6,
        }
    }

    open spec fn spec_from_code(code: u8) -> Option<DataRate> {
        match code {
            0 => Some(DataRate::SPS20),
            1 => Some(DataRate::SPS45),
            2 => Some(DataRate::SPS90),
            3 => Some(DataRate::SPS175),
            4 => Some(DataRate::SPS330),
            5 => Some(DataRate::SPS600),
            6 => Some(DataRate::SPS1000),
            _ => None,
        }
    }

    open spec fn spec_register() -> Register {
        Register::CONFIG1
    }

    open spec fn spec_offset() -> u8 {
        5
    }

    open spec fn spec_low_mask() -> u8 {
        7
    }

    proof fn lemma_layout() {
    }

    proof fn lemma_code(self) {
    }

    fn register() -> (r: Register) {
        Register::CONFIG1
    }

    fn offset() -> (r: u8) {
        5
    }

    fn low_mask() -> (r: u8) {
        7
    }

    fn code(self) -> (r: u8) {
        self.bits()
    }

    fn from_code(code: u8) -> (r: Option<DataRate>) {
        match code {
            0 => Some(DataRate::SPS20),
            1 => Some(DataRate::SPS45),
            2 => Some(DataRate::SPS90),
            3 => Some(DataRate::SPS175),
            4 => Some(DataRate::SPS330),
            5 => Some(DataRate::SPS600),
            6 => Some(DataRate::SPS1000),
            _ => None,
        }
    }
}

/// Operating mode (CONFIG1 bits 4-3).
#[allow(non_camel_case_types)]
#[derive(Debug, Copy, Clone, PartialEq, Eq, Structural, Default)]
pub enum Mode {
    #[default]
    NORMAL,
    DUTYCYCLE,
    TURBO,
}

impl Mode {
    /// The raw operating mode code.
    pub fn bits(self) -> (r: u8)
        ensures
            r == self.spec_code(),
    {
        match self {
            Mode::NORMAL => 0,
            Mode::DUTYCYCLE => 1,
            Mode::TURBO => 2,
        }
    }

    /// The operating mode code at its position in CONFIG1.
    pub fn bits_on_pos(self) -> (r: u8)
        ensures
            r == self.spec_code() << 3u8,
    {
        proof {
            self.lemma_code();
        }
        self.bits() << 3u8
    }
}

impl Field for Mode {
    open spec fn spec_code(self) -> u8 {
        match self {
            Mode::NORMAL => 0,
            Mode::DUTYCYCLE => 1,
            Mode::TURBO => 2,
        }
    }

    open spec fn spec_from_code(code: u8) -> Option<Mode> {
        match code {
            0 => Some(Mode::NORMAL),
            1 => Some(Mode::DUTYCYCLE),
            2 => Some(Mode::TURBO),
            _ => None,
        }
    }

    open spec fn spec_register() -> Register {
        Register::CONFIG1
    }

    open spec fn spec_offset() -> u8 {
        3
    }

    open spec fn spec_low_mask() -> u8 {
        3
    }

    proof fn lemma_layout() {
    }

    proof fn lemma_code(self) {
    }

    fn register() -> (r: Register) {
        Register::CONFIG1
    }

    fn offset() -> (r: u8) {
        3
    }

    fn low_mask() -> (r: u8) {
        3
    }

    fn code(self) -> (r: u8) {
        self.bits()
    }

    fn from_code(code: u8) -> (r: Option<Mode>) {
        match code {
            0 => Some(Mode::NORMAL),
            1 => Some(Mode::DUTYCYCLE),
            2 => Some(Mode::TURBO),
            _ => None,
        }
    }
}

/// Conversion mode, single-shot or continuous (CONFIG1 bit 2).
#[allow(non_camel_case_types)]
#[derive(Debug, Copy, Clone, PartialEq, Eq, Structural, Default)]
pub enum CM {
    #[default]
    SINGLE,
    CONTINUOUS,
}

impl Field for CM {
    open spec fn spec_code(self) -> u8 {
        match self {
            CM::SINGLE => 0,
            CM::CONTINUOUS => 1,
        }
    }

    open spec fn spec_from_code(code: u8) -> Option<CM> {
        match code {
            0 => Some(CM::SINGLE),
            1 => Some(CM::CONTINUOUS),
            _ => None,
        }
    }

    open spec fn spec_register() -> Register {
        Register::CONFIG1
    }

    open spec fn spec_offset() -> u8 {
        2
    }

    open spec fn spec_low_mask() -> u8 {
        1
    }

    proof fn lemma_layout() {
    }

    proof fn lemma_code(self) {
    }

    fn register() -> (r: Register) {
        Register::CONFIG1
    }

    fn offset() -> (r: u8) {
        2
    }

    fn low_mask() -> (r: u8) {
        1
    }

    fn code(self) -> (r: u8) {
        match self {
            CM::SINGLE => 0,
            CM::CONTINUOUS => 1,
        }
    }

    fn from_code(code: u8) -> (r: Option<CM>) {
        match code {
            0 => Some(CM::SINGLE),
            1 => Some(CM::CONTINUOUS),
            _ => None,
        }
    }
}

/// Temperature sensor mode (CONFIG1 bit 1).
#[allow(non_camel_case_types)]
#[derive(Debug, Copy, Clone, PartialEq, Eq, Structural, Default)]
pub enum TS {
    #[default]
    DISABLED,
    ENABLED,
}

impl Field for TS {
    open spec fn spec_code(self) -> u8 {
        match self {
            TS::DISABLED => 0,
            TS::ENABLED => 1,
        }
    }

    open spec fn spec_from_code(code: u8) -> Option<TS> {
        match code {
            0 => Some(TS::DISABLED),
            1 => Some(TS::ENABLED),
            _ => None,
        }
    }

    open spec fn spec_register() -> Register {
        Register::CONFIG1
    }

    open spec fn spec_offset() -> u8 {
        1
    }

    open spec fn spec_low_mask() -> u8 {
        1
    }

    proof fn lemma_layout() {
    }

    proof fn lemma_code(self) {
    }

    fn register() -> (r: Register) {
        Register::CONFIG1
    }

    fn offset() -> (r: u8) {
        1
    }

    fn low_mask() -> (r: u8) {
        1
    }

    fn code(self) -> (r: u8) {
        match self {
            TS::DISABLED => 0,
            TS::ENABLED => 1,
        }
    }

    fn from_code(code: u8) -> (r: Option<TS>) {
        match code {
            0 => Some(TS::DISABLED),
            1 => Some(TS::ENABLED),
            _ => None,
        }
    }
}

/// Burn-out current sources (CONFIG1 bit 0).
#[allow(non_camel_case_types)]
#[derive(Debug, Copy, Clone, PartialEq, Eq, Structural, Default)]
pub enum BCS {
    #[default]
    OFF,
    ON,
}

impl Field for BCS {
    open spec fn spec_code(self) -> u8 {
        match self {
            BCS::OFF => 0,
            BCS::ON => 1,
        }
    }

    open spec fn spec_from_code(code: u8) -> Option<BCS> {
        match code {
            0 => Some(BCS::OFF),
            1 => Some(BCS::ON),
            _ => None,
        }
    }

    open spec fn spec_register() -> Register {
        Register::CONFIG1
    }

    open spec fn spec_offset() -> u8 {
        0
    }

    open spec fn spec_low_mask() -> u8 {
        1
    }

    proof fn lemma_layout() {
    }

    proof fn lemma_code(self) {
    }

    fn register() -> (r: Register) {
        Register::CONFIG1
    }

    fn offset() -> (r: u8) {
        0
    }

    fn low_mask() -> (r: u8) {
        1
    }

    fn code(self) -> (r: u8) {
        match self {
            BCS::OFF => 0,
            BCS::ON => 1,
        }
    }

    fn from_code(code: u8) -> (r: Option<BCS>) {
        match code {
            0 => Some(BCS::OFF),
            1 => Some(BCS::ON),
            _ => None,
        }
    }
}

/// Voltage reference selection (CONFIG2 bits 7-6).
#[allow(non_camel_case_types)]
#[derive(Debug, Copy, Clone, PartialEq, Eq, Structural, Default)]
pub enum Reference {
    #[default]
    V2048,
    REF0,
    REF1,
    AV,
}

impl Reference {
    /// The raw reference code.
    pub fn bits(self) -> (r: u8)
        ensures
            r == self.spec_code(),
    {
        match self {
            Reference::V2048 => 0,
            Reference::REF0 => 1,
            Reference::REF1 => 2,
            Reference::AV => 3,
        }
    }

    /// The reference code at its position in CONFIG2.
    pub fn bits_on_pos(self) -> (r: u8)
        ensures
            r == self.spec_code() << 6u8,
    {
        proof {
            self.lemma_code();
        }
        self.bits() << 6u8
    }
}

impl Field for Reference {
    open spec fn spec_code(self) -> u8 {
        match self {
            Reference::V2048 => 0,
            Reference::REF0 => 1,
            Reference::REF1 => 2,
            Reference::AV => 3,
        }
    }

    open spec fn spec_from_code(code: u8) -> Option<Reference> {
        match code {
            0 => Some(Reference::V2048),
            1 => Some(Reference::REF0),
            2 => Some(Reference::REF1),
            3 => Some(Reference::AV),
            _ => None,
        }
    }

    open spec fn spec_register() -> Register {
        Register::CONFIG2
    }

    open spec fn spec_offset() -> u8 {
        6
    }

    open spec fn spec_low_mask() -> u8 {
        3
    }

    proof fn lemma_layout() {
    }

    proof fn lemma_code(self) {
    }

    fn register() -> (r: Register) {
        Register::CONFIG2
    }

    fn offset() -> (r: u8) {
        6
    }

    fn low_mask() -> (r: u8) {
        3
    }

    fn code(self) -> (r: u8) {
        self.bits()
    }

    fn from_code(code: u8) -> (r: Option<Reference>) {
        match code {
            0 => Some(Reference::V2048),
            1 => Some(Reference::REF0),
            2 => Some(Reference::REF1),
            3 => Some(Reference::AV),
            _ => None,
        }
    }
}

/// FIR filter configuration (CONFIG2 bits 5-4).
#[allow(non_camel_case_types)]
#[derive(Debug, Copy, Clone, PartialEq, Eq, Structural, Default)]
pub enum Filter {
    #[default]
    NONE,
    HZ5060,
    HZ50,
    HZ60,
}

impl Filter {
    /// The raw filter code.
    pub fn bits(self) -> (r: u8)
        ensures
            r == self.spec_code(),
    {
        match self {
            Filter::NONE => 0,
            Filter::HZ5060 => 1,
            Filter::HZ50 => 2,
            Filter::HZ60 => 3,
        }
    }

    /// The filter code at its position in CONFIG2.
    pub fn bits_on_pos(self) -> (r: u8)
        ensures
            r == self.spec_code() << 4u8,
    {
        proof {
            self.lemma_code();
        }
        self.bits() << 4u8
    }
}

impl Field for Filter {
    open spec fn spec_code(self) -> u8 {
        match self {
            Filter::NONE => 0,
            Filter::HZ5060 => 1,
            Filter::HZ50 => 2,
            Filter::HZ60 => 3,
        }
    }

    open spec fn spec_from_code(code: u8) -> Option<Filter> {
        match code {
            0 => Some(Filter::NONE),
            1 => Some(Filter::HZ5060),
            2 => Some(Filter::HZ50),
            3 => Some(Filter::HZ60),
            _ => None,
        }
    }

    open spec fn spec_register() -> Register {
        Register::CONFIG2
    }

    open spec fn spec_offset() -> u8 {
        4
    }

    open spec fn spec_low_mask() -> u8 {
        3
    }

    proof fn lemma_layout() {
    }

    proof fn lemma_code(self) {
    }

    fn register() -> (r: Register) {
        Register::CONFIG2
    }

    fn offset() -> (r: u8) {
        4
    }

    fn low_mask() -> (r: u8) {
        3
    }

    fn code(self) -> (r: u8) {
        self.bits()
    }

    fn from_code(code: u8) -> (r: Option<Filter>) {
        match code {
            0 => Some(Filter::NONE),
            1 => Some(Filter::HZ5060),
            2 => Some(Filter::HZ50),
            3 => Some(Filter::HZ60),
            _ => None,
        }
    }
}

/// Low-side power switch (CONFIG2 bit 3).
#[allow(non_camel_case_types)]
#[derive(Debug, Copy, Clone, PartialEq, Eq, Structural, Default)]
pub enum PSW {
    #[default]
    OPEN,
    CLOSING,
}

impl Field for PSW {
    open spec fn spec_code(self) -> u8 {
        match self {
            PSW::OPEN => 0,
            PSW::CLOSING => 1,
        }
    }

    open spec fn spec_from_code(code: u8) -> Option<PSW> {
        match code {
            0 => Some(PSW::OPEN),
            1 => Some(PSW::CLOSING),
            _ => None,
        }
    }

    open spec fn spec_register() -> Register {
        Register::CONFIG2
    }

    open spec fn spec_offset() -> u8 {
        3
    }

    open spec fn spec_low_mask() -> u8 {
        1
    }

    proof fn lemma_layout() {
    }

    proof fn lemma_code(self) {
    }

    fn register() -> (r: Register) {
        Register::CONFIG2
    }

    fn offset() -> (r: u8) {
        3
    }

    fn low_mask() -> (r: u8) {
        1
    }

    fn code(self) -> (r: u8) {
        match self {
            PSW::OPEN => 0,
            PSW::CLOSING => 1,
        }
    }

    fn from_code(code: u8) -> (r: Option<PSW>) {
        match code {
            0 => Some(PSW::OPEN),
            1 => Some(PSW::CLOSING),
            _ => None,
        }
    }
}

/// Excitation current magnitude (CONFIG2 bits 2-0).
#[allow(non_camel_case_types)]
#[derive(Debug, Copy, Clone, PartialEq, Eq, Structural, Default)]
pub enum Idac {
    #[default]
    OFF,
    U10,
    U50,
    U100,
    U250,
    U500,
    U1000,
    U1500,
}

impl Idac {
    /// The raw current magnitude code.
    pub fn bits(self) -> (r: u8)
        ensures
            r == self.spec_code(),
    {
        match self {
            Idac::OFF => 0,
            Idac::U10 => 1,
            Idac::U50 => 2,
            Idac::U100 => 3,
            Idac::U250 => 4,
            Idac::U500 => 5,
            Idac::U1000 => 6,
            Idac::U1500 => 7,
        }
    }
}

impl Field for Idac {
    open spec fn spec_code(self) -> u8 {
        match self {
            Idac::OFF => 0,
            Idac::U10 => 1,
            Idac::U50 => 2,
            Idac::U100 => 3,
            Idac::U250 => 4,
            Idac::U500 => 5,
            Idac::U1000 => 6,
            Idac::U1500 => 7,
        }
    }

    open spec fn spec_from_code(code: u8) -> Option<Idac> {
        match code {
            0 => Some(Idac::OFF),
            1 => Some(Idac::U10),
            2 => Some(Idac::U50),
            3 => Some(Idac::U100),
            4 => Some(Idac::U250),
            5 => Some(Idac::U500),
            6 => Some(Idac::U1000),
            7 => Some(Idac::U1500),
            _ => None,
        }
    }

    open spec fn spec_register() -> Register {
        Register::CONFIG2
    }

    open spec fn spec_offset() -> u8 {
        0
    }

    open spec fn spec_low_mask() -> u8 {
        7
    }

    proof fn lemma_layout() {
    }

    proof fn lemma_code(self) {
    }

    fn register() -> (r: Register) {
        Register::CONFIG2
    }

    fn offset() -> (r: u8) {
        0
    }

    fn low_mask() -> (r: u8) {
        7
    }

    fn code(self) -> (r: u8) {
        self.bits()
    }

    fn from_code(code: u8) -> (r: Option<Idac>) {
        match code {
            0 => Some(Idac::OFF),
            1 => Some(Idac::U10),
            2 => Some(Idac::U50),
            3 => Some(Idac::U100),
            4 => Some(Idac::U250),
            5 => Some(Idac::U500),
            6 => Some(Idac::U1000),
            7 => Some(Idac::U1500),
            _ => None,
        }
    }
}

/// Routing of the first excitation current source (CONFIG3 bits 7-5).
#[allow(non_camel_case_types)]
#[derive(Debug, Copy, Clone, PartialEq, Eq, Structural, Default)]
pub enum Idac1r {
    #[default]
    OFF,
    AIN0,
    AIN1,
    AIN2,
    AIN3,
    REFP0,
    REFN0,
}

impl Idac1r {
    /// The raw routing code.
    pub fn bits(self) -> (r: u8)
        ensures
            r == self.spec_code(),
    {
        match self {
            Idac1r::OFF => 0,
            Idac1r::AIN0 => 1,
            Idac1r::AIN1 => 2,
            Idac1r::AIN2 => 3,
            Idac1r::AIN3 => 4,
            Idac1r::REFP0 => 5,
            Idac1r::REFN0 => 6,
        }
    }

    /// The routing code at its position in CONFIG3.
    pub fn bits_on_pos(self) -> (r: u8)
        ensures
            r == self.spec_code() << 5u8,
    {
        proof {
            self.lemma_code();
        }
        self.bits() << 5u8
    }
}

impl Field for Idac1r {
    open spec fn spec_code(self) -> u8 {
        match self {
            Idac1r::OFF => 0,
            Idac1r::AIN0 => 1,
            Idac1r::AIN1 => 2,
            Idac1r::AIN2 => 3,
            Idac1r::AIN3 => 4,
            Idac1r::REFP0 => 5,
            Idac1r::REFN0 => 6,
        }
    }

    open spec fn spec_from_code(code: u8) -> Option<Idac1r> {
        match code {
            0 => Some(Idac1r::OFF),
            1 => Some(Idac1r::AIN0),
            2 => Some(Idac1r::AIN1),
            3 => Some(Idac1r::AIN2),
            4 => Some(Idac1r::AIN3),
            5 => Some(Idac1r::REFP0),
            6 => Some(Idac1r::REFN0),
            _ => None,
        }
    }

    open spec fn spec_register() -> Register {
        Register::CONFIG3
    }

    open spec fn spec_offset() -> u8 {
        5
    }

    open spec fn spec_low_mask() -> u8 {
        7
    }

    proof fn lemma_layout() {
    }

    proof fn lemma_code(self) {
    }

    fn register() -> (r: Register) {
        Register::CONFIG3
    }

    fn offset() -> (r: u8) {
        5
    }

    fn low_mask() -> (r: u8) {
        7
    }

    fn code(self) -> (r: u8) {
        self.bits()
    }

    fn from_code(code: u8) -> (r: Option<Idac1r>) {
        match code {
            0 => Some(Idac1r::OFF),
            1 => Some(Idac1r::AIN0),
            2 => Some(Idac1r::AIN1),
            3 => Some(Idac1r::AIN2),
            4 => Some(Idac1r::AIN3),
            5 => Some(Idac1r::REFP0),
            6 => Some(Idac1r::REFN0),
            _ => None,
        }
    }
}

/// Routing of the second excitation current source (CONFIG3 bits 4-2).
#[allow(non_camel_case_types)]
#[derive(Debug, Copy, Clone, PartialEq, Eq, Structural, Default)]
pub enum Idac2r {
    #[default]
    OFF,
    AIN0,
    AIN1,
    AIN2,
    AIN3,
    REFP0,
    REFN0,
}

impl Idac2r {
    /// The raw routing code.
    pub fn bits(self) -> (r: u8)
        ensures
            r == self.spec_code(),
    {
        match self {
            Idac2r::OFF => 0,
            Idac2r::AIN0 => 1,
            Idac2r::AIN1 => 2,
            Idac2r::AIN2 => 3,
            Idac2r::AIN3 => 4,
            Idac2r::REFP0 => 5,
            Idac2r::REFN0 => 6,
        }
    }

    /// The routing code at its position in CONFIG3.
    pub fn bits_on_pos(self) -> (r: u8)
        ensures
            r == self.spec_code() << 2u8,
    {
        proof {
            self.lemma_code();
        }
        self.bits() << 2u8
    }
}

impl Field for Idac2r {
    open spec fn spec_code(self) -> u8 {
        match self {
            Idac2r::OFF => 0,
            Idac2r::AIN0 => 1,
            Idac2r::AIN1 => 2,
            Idac2r::AIN2 => 3,
            Idac2r::AIN3 => 4,
            Idac2r::REFP0 => 5,
            Idac2r::REFN0 => 6,
        }
    }

    open spec fn spec_from_code(code: u8) -> Option<Idac2r> {
        match code {
            0 => Some(Idac2r::OFF),
            1 => Some(Idac2r::AIN0),
            2 => Some(Idac2r::AIN1),
            3 => Some(Idac2r::AIN2),
            4 => Some(Idac2r::AIN3),
            5 => Some(Idac2r::REFP0),
            6 => Some(Idac2r::REFN0),
            _ => None,
        }
    }

    open spec fn spec_register() -> Register {
        Register::CONFIG3
    }

    open spec fn spec_offset() -> u8 {
        2
    }

    open spec fn spec_low_mask() -> u8 {
        7
    }

    proof fn lemma_layout() {
    }

    proof fn lemma_code(self) {
    }

    fn register() -> (r: Register) {
        Register::CONFIG3
    }

    fn offset() -> (r: u8) {
        2
    }

    fn low_mask() -> (r: u8) {
        7
    }

    fn code(self) -> (r: u8) {
        self.bits()
    }

    fn from_code(code: u8) -> (r: Option<Idac2r>) {
        match code {
            0 => Some(Idac2r::OFF),
            1 => Some(Idac2r::AIN0),
            2 => Some(Idac2r::AIN1),
            3 => Some(Idac2r::AIN2),
            4 => Some(Idac2r::AIN3),
            5 => Some(Idac2r::REFP0),
            6 => Some(Idac2r::REFN0),
            _ => None,
        }
    }
}

/// Data-ready signalling mode (CONFIG3 bit 1): the dedicated pin alone, or also the data-out pin.
#[allow(non_camel_case_types)]
#[derive(Debug, Copy, Clone, PartialEq, Eq, Structural, Default)]
pub enum DRDYM {
    #[default]
    DRDY,
    DOUT_DRDY,
}

impl Field for DRDYM {
    open spec fn spec_code(self) -> u8 {
        match self {
            DRDYM::DRDY => 0,
            DRDYM::DOUT_DRDY => 1,
        }
    }

    open spec fn spec_from_code(code: u8) -> Option<DRDYM> {
        match code {
            0 => Some(DRDYM::DRDY),
            1 => Some(DRDYM::DOUT_DRDY),
            _ => None,
        }
    }

    open spec fn spec_register() -> Register {
        Register::CONFIG3
    }

    open spec fn spec_offset() -> u8 {
        1
    }

    open spec fn spec_low_mask() -> u8 {
        1
    }

    proof fn lemma_layout() {
    }

    proof fn lemma_code(self) {
    }

    fn register() -> (r: Register) {
        Register::CONFIG3
    }

    fn offset() -> (r: u8) {
        1
    }

    fn low_mask() -> (r: u8) {
        1
    }

    fn code(self) -> (r: u8) {
        match self {
            DRDYM::DRDY => 0,
            DRDYM::DOUT_DRDY => 1,
        }
    }

    fn from_code(code: u8) -> (r: Option<DRDYM>) {
        match code {
            0 => Some(DRDYM::DRDY),
            1 => Some(DRDYM::DOUT_DRDY),
            _ => None,
        }
    }
}


/// Fields that share a register never overlap.
pub proof fn lemma_fields_disjoint()
    ensures
            mask_of::<Channel>() & mask_of::<PGA>() == 0,
            mask_of::<Channel>() & mask_of::<PGA_BYPASS>() == 0,
            mask_of::<PGA>() & mask_of::<PGA_BYPASS>() == 0,
            mask_of::<DataRate>() & mask_of::<Mode>() == 0,
            mask_of::<DataRate>() & mask_of::<CM>() == 0,
            mask_of::<DataRate>() & mask_of::<TS>() == 0,
            mask_of::<DataRate>() & mask_of::<BCS>() == 0,
            mask_of::<Mode>() & mask_of::<CM>() == 0,
            mask_of::<Mode>() & mask_of::<TS>() == 0,
            mask_of::<Mode>() & mask_of::<BCS>() == 0,
            mask_of::<CM>() & mask_of::<TS>() == 0,
            mask_of::<CM>() & mask_of::<BCS>() == 0,
            mask_of::<TS>() & mask_of::<BCS>() == 0,
            mask_of::<Reference>() & mask_of::<Filter>() == 0,
            mask_of::<Reference>() & mask_of::<PSW>() == 0,
            mask_of::<Reference>() & mask_of::<Idac>() == 0,
            mask_of::<Filter>() & mask_of::<PSW>() == 0,
            mask_of::<Filter>() & mask_of::<Idac>() == 0,
            mask_of::<PSW>() & mask_of::<Idac>() == 0,
            mask_of::<Idac1r>() & mask_of::<Idac2r>() == 0,
            mask_of::<Idac1r>() & mask_of::<DRDYM>() == 0,
            mask_of::<Idac2r>() & mask_of::<DRDYM>() == 0,
{
    assert(
            (15u8 << 4u8) & (7u8 << 1u8) == 0 &&
            (15u8 << 4u8) & (1u8 << 0u8) == 0 &&
            (7u8 << 1u8) & (1u8 << 0u8) == 0 &&
            (7u8 << 5u8) & (3u8 << 3u8) == 0 &&
            (7u8 << 5u8) & (1u8 << 2u8) == 0 &&
            (7u8 << 5u8) & (1u8 << 1u8) == 0 &&
            (7u8 << 5u8) & (1u8 << 0u8) == 0 &&
            (3u8 << 3u8) & (1u8 << 2u8) == 0 &&
            (3u8 << 3u8) & (1u8 << 1u8) == 0 &&
            (3u8 << 3u8) & (1u8 << 0u8) == 0 &&
            (1u8 << 2u8) & (1u8 << 1u8) == 0 &&
            (1u8 << 2u8) & (1u8 << 0u8) == 0 &&
            (1u8 << 1u8) & (1u8 << 0u8) == 0 &&
            (3u8 << 6u8) & (3u8 << 4u8) == 0 &&
            (3u8 << 6u8) & (1u8 << 3u8) == 0 &&
            (3u8 << 6u8) & (7u8 << 0u8) == 0 &&
            (3u8 << 4u8) & (1u8 << 3u8) == 0 &&
            (3u8 << 4u8) & (7u8 << 0u8) == 0 &&
            (1u8 << 3u8) & (7u8 << 0u8) == 0 &&
            (7u8 << 5u8) & (7u8 << 2u8) == 0 &&
            (7u8 << 5u8) & (1u8 << 1u8) == 0 &&
            (7u8 << 2u8) & (1u8 << 1u8) == 0
    ) by (bit_vector);
}

} // verus!
