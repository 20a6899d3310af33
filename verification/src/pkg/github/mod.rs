pub mod issues;
