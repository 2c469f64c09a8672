use flowmode::state::{
    close_request_action, menu_command, tray_click_command, AppState, CloseAction, WindowCommand,
};
use flowmode::updater::{install_outcome, update_check_outcome, InstallEvent, UpdateCheckEvent};
use flowmode::weather::{parse_geocoding_response, parse_weather_response, weather_data};

#[test]
fn geocoding_empty_results_is_an_error() {
    assert_eq!(
        parse_geocoding_response(r#"{"results":[]}"#),
        Err("Город не найден".to_string())
    );
}

#[test]
fn geocoding_missing_results_is_an_error() {
    assert_eq!(
        parse_geocoding_response("{}"),
        Err("Город не найден".to_string())
    );
    assert_eq!(
        parse_geocoding_response(r#"{"results":null}"#),
        Err("Город не найден".to_string())
    );
}

#[test]
fn geocoding_rejects_non_json() {
    assert!(parse_geocoding_response("<html>").is_err());
}

#[test]
fn geocoding_takes_the_first_match() {
    let body = r#"{"results":[
        {"latitude":55.75,"longitude":37.62,"name":"Moscow","country":"Russia"},
        {"latitude":1.0,"longitude":2.0,"name":"Other","country":"Elsewhere"}
    ]}"#;
    let g = parse_geocoding_response(body).unwrap();
    assert_eq!(g.name, "Moscow");
    assert_eq!(g.country, "Russia");
    assert_eq!(g.latitude, "55.75");
    assert_eq!(g.longitude, "37.62");
}

#[test]
fn geocoding_keeps_integer_coordinates_as_integers() {
    let body = r#"{"results":[{"latitude":55,"longitude":-37,"name":"X","country":"Y"}]}"#;
    let g = parse_geocoding_response(body).unwrap();
    assert_eq!(g.latitude, "55");
    assert_eq!(g.longitude, "-37");
}

#[test]
fn geocoding_without_coordinates_is_an_error() {
    let body = r#"{"results":[{"name":"X","country":"Y"}]}"#;
    assert_eq!(
        parse_geocoding_response(body),
        Err("Нет координат".to_string())
    );
    let body = r#"{"results":[{"latitude":"north","longitude":3.0,"name":"X"}]}"#;
    assert_eq!(
        parse_geocoding_response(body),
        Err("Нет координат".to_string())
    );
}

#[test]
fn geocoding_defaults_missing_names_to_empty() {
    let body = r#"{"results":[{"latitude":1.5,"longitude":2.5}]}"#;
    let g = parse_geocoding_response(body).unwrap();
    assert_eq!(g.name, "");
    assert_eq!(g.country, "");
}

#[test]
fn weather_reads_all_current_fields() {
    let body = r#"{"current":{
        "temperature_2m":21.4,
        "relative_humidity_2m":60,
        "wind_speed_10m":3.5,
        "weather_code":2
    }}"#;
    let c = parse_weather_response(body).unwrap();
    assert_eq!(c.temp, "21.4");
    assert_eq!(c.humidity, "60");
    assert_eq!(c.wind_speed, "3.5");
    assert_eq!(c.weather_code, 2);
}

#[test]
fn weather_missing_fields_default_to_zero() {
    let c = parse_weather_response(r#"{"current":{}}"#).unwrap();
    assert_eq!(c.temp, "0");
    assert_eq!(c.humidity, "0");
    assert_eq!(c.wind_speed, "0");
    assert_eq!(c.weather_code, 0);
}

#[test]
fn weather_missing_current_defaults_to_zero() {
    let c = parse_weather_response("{}").unwrap();
    assert_eq!(c.temp, "0");
    assert_eq!(c.weather_code, 0);
}

#[test]
fn weather_wrongly_typed_fields_default_to_zero() {
    let body = r#"{"current":{"temperature_2m":"hot","weather_code":2.5}}"#;
    let c = parse_weather_response(body).unwrap();
    assert_eq!(c.temp, "0");
    assert_eq!(c.weather_code, 0);
}

#[test]
fn weather_rejects_non_json() {
    assert!(parse_weather_response("oops").is_err());
}

#[test]
fn weather_snapshot_combines_place_and_readings() {
    let g = parse_geocoding_response(
        r#"{"results":[{"latitude":1.0,"longitude":2.0,"name":"Town","country":"Land"}]}"#,
    )
    .unwrap();
    let c = parse_weather_response(r#"{"current":{"temperature_2m":-4.5,"weather_code":71}}"#)
        .unwrap();
    let w = weather_data(g, c);
    assert_eq!(w.name, "Town");
    assert_eq!(w.country, "Land");
    assert_eq!(w.temp, "-4.5");
    assert_eq!(w.humidity, "0");
    assert_eq!(w.wind_speed, "0");
    assert_eq!(w.weather_code, 71);
}

#[test]
fn fresh_state_closes_on_close_request() {
    let state = AppState::default();
    assert_eq!(close_request_action(&state), CloseAction::Close);
}

#[test]
fn close_follows_the_latest_toggle() {
    let mut state = AppState::default();
    state.set_minimize_on_close(true);
    assert_eq!(close_request_action(&state), CloseAction::PreventAndMinimize);
    state.set_minimize_on_close(false);
    assert_eq!(close_request_action(&state), CloseAction::Close);
    state.set_minimize_on_close(true);
    assert_eq!(close_request_action(&state), CloseAction::PreventAndMinimize);
}

#[test]
fn menu_commands_dispatch_by_identifier() {
    assert_eq!(menu_command("show"), WindowCommand::ShowAndFocus);
    assert_eq!(menu_command("quit"), WindowCommand::Quit);
    assert_eq!(menu_command("anything-else"), WindowCommand::Ignore);
    assert_eq!(menu_command(""), WindowCommand::Ignore);
}

#[test]
fn tray_click_needs_a_released_left_button() {
    assert_eq!(tray_click_command(true, true), WindowCommand::ShowAndFocus);
    assert_eq!(tray_click_command(true, false), WindowCommand::Ignore);
    assert_eq!(tray_click_command(false, true), WindowCommand::Ignore);
    assert_eq!(tray_click_command(false, false), WindowCommand::Ignore);
}

#[test]
fn update_check_outcomes() {
    assert_eq!(update_check_outcome(&UpdateCheckEvent::UpdateFound), Ok(true));
    assert_eq!(update_check_outcome(&UpdateCheckEvent::NoUpdate), Ok(false));
    assert_eq!(
        update_check_outcome(&UpdateCheckEvent::CheckFailed("offline".to_string())),
        Err("Ошибка проверки обновлений: offline".to_string())
    );
    assert_eq!(
        update_check_outcome(&UpdateCheckEvent::UpdaterUnavailable("no config".to_string())),
        Err("Updater не доступен: no config".to_string())
    );
}

#[test]
fn install_outcomes() {
    assert_eq!(install_outcome(&InstallEvent::Installed), Ok(()));
    assert_eq!(
        install_outcome(&InstallEvent::NoUpdate),
        Err("Обновлений не найдено".to_string())
    );
    assert_eq!(
        install_outcome(&InstallEvent::InstallFailed("disk full".to_string())),
        Err("Ошибка установки обновления: disk full".to_string())
    );
    assert_eq!(
        install_outcome(&InstallEvent::CheckFailed("offline".to_string())),
        Err("Ошибка проверки обновлений: offline".to_string())
    );
    assert_eq!(
        install_outcome(&InstallEvent::UpdaterUnavailable("no key".to_string())),
        Err("Updater не доступен: no key".to_string())
    );
}
