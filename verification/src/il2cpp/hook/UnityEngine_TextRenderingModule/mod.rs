pub mod TextGenerator;
