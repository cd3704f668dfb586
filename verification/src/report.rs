pub mod report_descriptor;
