pub mod adc;
pub mod caching;
pub mod controller;
pub mod ekit;
pub mod fan;
pub mod gpio;
pub mod heating;
pub mod laws;
pub mod overtemperature_protection;
pub mod relay;
pub mod temperature;
pub mod thermostat;
pub mod throttle;
pub mod tmp36;
