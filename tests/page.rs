use modem_health::{map_status_page, procedure_from_cells, status_entry, ExtractionError};

fn row(name: &str, cells: &str) -> String {
    format!("<tr><td>{}</td>{}</tr>\n", name, cells)
}

fn status_page(rows: &[String]) -> String {
    let mut body = String::from(
        "<tr><th colspan=\"3\"><strong>Startup Procedure</strong></th></tr>\n\
         <tr><td><strong>Procedure</strong></td><td><strong>Status</strong></td><td><strong>Comment</strong></td></tr>\n",
    );
    for r in rows {
        body.push_str(r);
    }
    format!(
        "<!DOCTYPE html>\n<html><head><title>Status</title></head><body>\n\
         <div class=\"header\"><table><tr><td>Menu</td></tr></table></div>\n\
         <div class=\"content\">\n<table class=\"simpleTable\">\n{}</table>\n\
         <table class=\"simpleTable\"><tr><th>Downstream Bonded Channels</th></tr>\n\
         <tr><td>1</td><td>Locked</td><td>QAM256</td></tr></table>\n</div></body></html>\n",
        body
    )
}

fn healthy_rows() -> Vec<String> {
    vec![
        row("Acquire Downstream Channel", "<td>675000000 Hz</td><td>Locked</td>"),
        row("Connectivity State", "<td>OK</td><td>Operational</td>"),
        row("Boot State", "<td>OK</td><td>Operational</td>"),
        row("Configuration File", "<td>OK</td><td></td>"),
        row("Security", "<td>Enabled</td><td>BPI+</td>"),
        row("DOCSIS Network Access Enabled", "<td>Allowed</td><td></td>"),
    ]
}

#[test]
pub fn select() {
    let text = status_page(&healthy_rows());

    let result = map_status_page(&text).unwrap();
    assert_eq!("675000000 Hz", result.acquire_downstream_channel.status);
    assert_eq!("Locked", result.acquire_downstream_channel.comment);
    assert_eq!("OK", result.connectivity_state.status);
    assert_eq!("Operational", result.connectivity_state.comment);
    assert_eq!("OK", result.boot_state.status);
    assert_eq!("Operational", result.boot_state.comment);
    assert_eq!("OK", result.configuration_file.status);
    assert_eq!("", result.configuration_file.comment);
    assert_eq!("Enabled", result.security.status);
    assert_eq!("BPI+", result.security.comment);
    assert_eq!("Allowed", result.docsis_network_enabled.status);
    assert_eq!("", result.docsis_network_enabled.comment);
}

#[test]
fn cell_text_is_trimmed() {
    let mut rows = healthy_rows();
    rows[1] = row("Connectivity State", "<td>\n   OK  </td><td>  <b>Operational</b> </td>");
    let result = map_status_page(&status_page(&rows)).unwrap();
    assert_eq!("OK", result.connectivity_state.status);
    assert_eq!("Operational", result.connectivity_state.comment);
}

#[test]
fn missing_comment_cell_reads_as_empty() {
    let mut rows = healthy_rows();
    rows[4] = row("Security", "<td>Enabled</td>");
    let result = map_status_page(&status_page(&rows)).unwrap();
    assert_eq!("Enabled", result.security.status);
    assert_eq!("", result.security.comment);
    assert_eq!("BPI+", map_status_page(&status_page(&healthy_rows())).unwrap().security.comment);
}

#[test]
fn missing_status_cell_fails() {
    let mut rows = healthy_rows();
    rows[3] = row("Configuration File", "");
    let err = map_status_page(&status_page(&rows)).unwrap_err();
    assert_eq!(ExtractionError { row: 6 }, err);
}

#[test]
fn missing_row_fails() {
    let rows = healthy_rows()[..5].to_vec();
    let err = map_status_page(&status_page(&rows)).unwrap_err();
    assert_eq!(ExtractionError { row: 8 }, err);
}

#[test]
fn login_page_fails_at_first_row() {
    let login = "<html><body><div class=\"login\"><form><input name=\"username\"></form></div></body></html>";
    assert_eq!(ExtractionError { row: 3 }, map_status_page(login).unwrap_err());
    assert_eq!(ExtractionError { row: 3 }, map_status_page("").unwrap_err());
}

#[test]
fn entry_from_cells() {
    let e = status_entry(Some("OK".to_string()), None).unwrap();
    assert_eq!("OK", e.status);
    assert_eq!("", e.comment);
    let e = status_entry(Some("OK".to_string()), Some("Operational".to_string())).unwrap();
    assert_eq!("Operational", e.comment);
    assert!(status_entry(None, Some("Locked".to_string())).is_none());
}

#[test]
fn procedure_from_given_cells() {
    let mut cells: Vec<(Option<String>, Option<String>)> = (0..6)
        .map(|i| (Some(format!("s{}", i)), Some(format!("c{}", i))))
        .collect();
    cells[2].1 = None;
    let p = procedure_from_cells(&cells).unwrap();
    assert_eq!("s0", p.acquire_downstream_channel.status);
    assert_eq!("", p.boot_state.comment);
    assert_eq!("s5", p.docsis_network_enabled.status);
    assert_eq!("c5", p.docsis_network_enabled.comment);
    cells[4].0 = None;
    cells[5].0 = None;
    assert_eq!(ExtractionError { row: 7 }, procedure_from_cells(&cells).unwrap_err());
}
