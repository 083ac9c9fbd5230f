//! Bring-up and interrupt-management core of a single-CPU x86 protected-mode
//! kernel: descriptor tables, interrupt classification and delivery, PAE page
//! tables and the control-register values that activate them.
//!
//! Everything here computes on plain values. Loading a table, touching a port
//! or a control register is left to the caller, which hands the library what
//! it read and carries out what the library decided.

pub mod boot;
pub mod command;
pub mod cpu;
pub mod descriptor;
pub mod gdt;
pub mod idt;
pub mod input;
pub mod interrupt;
pub mod page_flags;
pub mod page_table;
pub mod pending;
pub mod resource;
pub mod terminal;
pub mod tss;
