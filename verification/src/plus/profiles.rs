pub mod heart_rate;
