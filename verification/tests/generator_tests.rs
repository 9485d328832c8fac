use deva::generator::{chrono_lite_date, has_no_partial_call, lite_date, lite_date_from_clock, Generator, GeneratorError};
use deva::json::JsonValue;

#[test]
fn lite_dates() {
    assert_eq!(lite_date(0), "1970+0d 0h:0m");
    assert_eq!(lite_date(90061), "1970+1d 1h:1m");
    assert_eq!(lite_date(86399), "1970+0d 23h:59m");
    assert_eq!(lite_date(1_700_000_000), "1970+19675d 22h:13m");
}

#[test]
fn lite_date_of_now_has_the_shape() {
    let d = chrono_lite_date();
    assert!(d.starts_with("1970+"));
    assert!(d.ends_with('m'));
    assert!(d.contains("d ") && d.contains("h:"));
}

#[test]
fn generator_is_strict() {
    let g = Generator::new();
    assert!(g.strict_mode);
    assert!(g.generate("entity", &JsonValue::Null, "out").is_ok());
}

#[test]
fn render_entity() {
    let g = Generator::new();
    let file = g
        .render_entity("namespace {{namespace}};\npublic class {{entity_name}} { } // {{generated_at}}", "Order", "1970+1d 1h:1m")
        .unwrap();
    assert_eq!(file.file_name, "Order.cs");
    assert_eq!(file.content, "namespace App.Entities.Order;\npublic class Order { } // 1970+1d 1h:1m");
    let each = g.render_entity("{{#each properties}}x{{/each}}done", "A", "d").unwrap();
    assert_eq!(each.content, "done");
}

#[test]
fn render_page_and_hook() {
    let g = Generator::new();
    let page = g.render_page("export default function {{entity_name}}Page() {}", "Order").unwrap();
    assert_eq!(page.file_name, "Order.tsx");
    assert_eq!(page.content, "export default function OrderPage() {}");
    let hook = g.render_hook("export function use{{entity_name}}List() {}", "Order").unwrap();
    assert_eq!(hook.file_name, "useOrders.ts");
    assert_eq!(hook.content, "export function useOrderList() {}");
}

#[test]
fn strict_rendering_rejects_unknown_values() {
    let g = Generator::new();
    let err = g.render_page("{{missing}}", "Order").unwrap_err();
    assert!(matches!(err, GeneratorError::Template(_)));
    let lax = Generator { strict_mode: false };
    assert_eq!(lax.render_page("[{{missing}}]", "Order").unwrap().content, "[]");
}

#[test]
fn html_is_escaped_by_the_template_engine() {
    let g = Generator::new();
    assert_eq!(g.render_page("{{entity_name}}", "<A&B>").unwrap().content, "&lt;A&amp;B&gt;");
}

#[test]
fn clock_before_the_epoch_counts_as_the_epoch() {
    let epoch = std::time::UNIX_EPOCH;
    let before = epoch.duration_since(epoch + std::time::Duration::from_secs(1));
    assert!(before.is_err());
    assert_eq!(lite_date_from_clock(before.ok().map(|d| d.as_secs())), "1970+0d 0h:0m");
    assert_eq!(lite_date_from_clock(None), "1970+0d 0h:0m");
    let after = Some(std::time::Duration::from_millis(90_061_999).as_secs());
    assert_eq!(lite_date_from_clock(after), "1970+1d 1h:1m");
    assert_eq!(lite_date_from_clock(Some(90061)), "1970+1d 1h:1m");
}

#[test]
fn templates_that_call_partials_are_recognised() {
    assert!(has_no_partial_call(""));
    assert!(has_no_partial_call("public class {{entity_name}} { List<int> x; } // a > b"));
    assert!(has_no_partial_call("{{#each properties}}{{this}}{{/each}} {{! > comment}}"));
    assert!(has_no_partial_call("{{#*inline \"a\"}}x{{/inline}}"));
    assert!(!has_no_partial_call("{{> header}}"));
    assert!(!has_no_partial_call("x{{#> layout}}body{{/layout}}"));
    assert!(!has_no_partial_call("{{~ > a}}"));
    assert!(!has_no_partial_call("{{#*inline \"a\"}}{{> a}}{{/inline}}{{> a}}"));
    assert!(!has_no_partial_call("{{\n\t>a}}"));
}
