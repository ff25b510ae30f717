use metric_bridge::transform::{full_metric_name, rewrite_sensor_name};

#[test]
fn temperature_names_keep_their_grouping() {
    assert_eq!(rewrite_sensor_name("temperature_outdoor"), "temperature.outdoor");
    assert_eq!(
        rewrite_sensor_name("temperature_outdoor_north"),
        "temperature.outdoor.north"
    );
}

#[test]
fn water_level_maps_to_its_fixed_alias() {
    assert_eq!(rewrite_sensor_name("water_level"), "water_level.water_level");
}

#[test]
fn other_names_lose_dashes_and_underscores() {
    assert_eq!(rewrite_sensor_name("living-room_humidity"), "living.room.humidity");
    assert_eq!(rewrite_sensor_name("co2-level"), "co2.level");
}

#[test]
fn plain_names_pass_through() {
    assert_eq!(rewrite_sensor_name("pressure"), "pressure");
}

#[test]
fn the_empty_name_stays_empty() {
    assert_eq!(rewrite_sensor_name(""), "");
}

#[test]
fn configured_prefix_is_joined_with_a_dot() {
    let prefix = Some(String::from("home.test"));
    assert_eq!(
        full_metric_name(&prefix, "temperature_outdoor"),
        "home.test.temperature.outdoor"
    );
}

#[test]
fn missing_prefix_leaves_the_name_alone() {
    assert_eq!(full_metric_name(&None, "water_level"), "water_level.water_level");
}
