use sht3x_bus::format::format_measurement;
use sht3x_bus::sht3x::Sht3xMeasurement;

fn reading(temp_centi_celsius: i32, humidity_centi_percent: u32) -> Sht3xMeasurement {
    Sht3xMeasurement { temp_centi_celsius, humidity_centi_percent }
}

#[test]
fn format_reference_reading() {
    assert_eq!(format_measurement(&reading(2500, 6000)), "25.0C\n60.0%");
}

#[test]
fn format_boundary_readings() {
    assert_eq!(format_measurement(&reading(-4500, 10000)), "-45.0C\n100.0%");
    assert_eq!(format_measurement(&reading(0, 0)), "0.0C\n0.0%");
    assert_eq!(format_measurement(&reading(13000, 0)), "130.0C\n0.0%");
}

#[test]
fn format_rounds_to_nearest_tenth() {
    assert_eq!(format_measurement(&reading(2494, 2495)), "24.9C\n25.0%");
    assert_eq!(format_measurement(&reading(-2495, 0)), "-25.0C\n0.0%");
    assert_eq!(format_measurement(&reading(-4, 4)), "-0.0C\n0.0%");
}
