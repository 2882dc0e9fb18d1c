pub mod psp22;
