use product_service::configuration::Settings;
use product_service::data::fetch_products;
use product_service::engine::RuleModule;
use product_service::engine::execute_chain;
use product_service::host::RulesEngineState;
use product_service::interface::Error;
use product_service::interface::error_text;
use product_service::loader::EngineOutcome;
use product_service::loader::conclude_run;
use product_service::model::Product;
use product_service::model::ProductInfo;
use product_service::validation::pipeline_applies;
use product_service::validation::validate_product;
use product_service::validation::wasm_bin_path_exists;

fn sample_product() -> Product {
    Product {
        id: 1,
        name: "Sample".to_string(),
        price_cents: 2500,
        description: "A sample record of fair length".to_string(),
        image: "/sample.png".to_string(),
    }
}

fn assert_same_product(a: &Product, b: &Product) {
    assert_eq!(a.id, b.id);
    assert_eq!(a.name, b.name);
    assert_eq!(a.price_cents, b.price_cents);
    assert_eq!(a.description, b.description);
    assert_eq!(a.image, b.image);
}

#[test]
fn test_validate_disabled_returns_input_unchanged() {
    let settings = Settings::new();
    assert!(!settings.wasm_rules_engine_enabled);
    let product = sample_product();
    // The binary may well be present; the flag alone must skip the pipeline.
    let result = validate_product(&settings, false, &product, None).unwrap();
    assert_same_product(&result, &product);
}

#[test]
fn test_validate_missing_binary_returns_input_unchanged() {
    let settings = Settings::new().set_wasm_rules_engine(true);
    assert!(settings.wasm_rules_engine_enabled);
    let product = sample_product();
    let result = validate_product(&settings, false, &product, None).unwrap();
    assert_same_product(&result, &product);
}

#[test]
fn test_validate_passes_engine_outcome_through() {
    let settings = Settings::new().set_wasm_rules_engine(true);
    let product = sample_product();
    let outcome = EngineOutcome::Completed(Err(Error::PricingStandardsViolation(
        "Price is too high!".to_string(),
    )));
    match validate_product(&settings, true, &product, Some(outcome)) {
        Err(Error::PricingStandardsViolation(m)) => assert_eq!(m, "Price is too high!"),
        _ => panic!("the module's own rejection must pass through"),
    }
}

#[test]
fn test_pipeline_applies_table() {
    let disabled = Settings::new();
    let enabled = Settings::new().set_wasm_rules_engine(true);
    assert!(!pipeline_applies(&disabled, false));
    assert!(!pipeline_applies(&disabled, true));
    assert!(!pipeline_applies(&enabled, false));
    assert!(pipeline_applies(&enabled, true));
}

#[test]
fn test_wasm_bin_path_exists_on_missing_path() {
    assert!(!wasm_bin_path_exists("./no/such/binary/anywhere.wasm"));
}

#[test]
fn test_wasm_bin_path_exists_on_present_path() {
    assert!(wasm_bin_path_exists("/"));
}

#[test]
fn test_malformed_module_yields_internal_error() {
    let outcome = EngineOutcome::InstantiationFailed("missing required export".to_string());
    match conclude_run(outcome) {
        Err(Error::EngineInternalError(m)) => assert_eq!(m, "missing required export"),
        _ => panic!("an instantiation failure must surface as an internal error"),
    }
}

#[test]
fn test_trapped_module_yields_internal_error() {
    let outcome = EngineOutcome::Trapped("out of bounds memory access".to_string());
    match conclude_run(outcome) {
        Err(Error::EngineInternalError(m)) => assert_eq!(m, "out of bounds memory access"),
        _ => panic!("a trap must surface as an internal error"),
    }
}

#[test]
fn test_completed_run_passes_through() {
    let product = sample_product();
    let outcome = EngineOutcome::Completed(Ok(product.clone()));
    let result = conclude_run(outcome).unwrap();
    assert_same_product(&result, &product);
}

#[test]
fn test_settings_defaults() {
    let settings = Settings::new();
    assert_eq!(settings.max_size, 262144);
    assert_eq!(settings.log_level, "info");
    assert_eq!(settings.port, 3002);
    assert!(!settings.wasm_rules_engine_enabled);
    assert_eq!(settings.wasm_bin_path, "./tests/rule_engine.wasm");
    assert_eq!(settings.ai_service_url, "http://127.0.0.1:5001");
}

#[test]
fn test_settings_enable_is_sticky() {
    let settings = Settings::new().set_wasm_rules_engine(true).set_wasm_rules_engine(false);
    assert!(settings.wasm_rules_engine_enabled);
}

#[test]
fn test_settings_builders() {
    let settings = Settings::new()
        .set_port(8080)
        .set_max_size(1024)
        .set_log_level("debug".to_string());
    assert_eq!(settings.port, 8080);
    assert_eq!(settings.max_size, 1024);
    assert_eq!(settings.log_level, "debug");
    assert!(!settings.wasm_rules_engine_enabled);
}

#[test]
fn test_error_text_renders_each_variant() {
    assert_eq!(
        error_text(&Error::InvalidProduct("The product description is too short!".to_string())),
        "Error::InvalidProduct(\"The product description is too short!\")"
    );
    assert_eq!(
        error_text(&Error::PricingStandardsViolation("Price is too high!".to_string())),
        "Error::PricingStandardsViolation(\"Price is too high!\")"
    );
    assert_eq!(
        error_text(&Error::EngineInternalError("link failure".to_string())),
        "Error::EngineInternalError(\"link failure\")"
    );
}

#[test]
fn test_catalog_has_ten_conforming_products() {
    let products = fetch_products(&Settings::new());
    assert_eq!(products.len(), 10);
    for (i, product) in products.iter().enumerate() {
        assert_eq!(product.id, i as i32 + 1);
        assert!(product.description.chars().count() >= 10);
        assert!(product.price_cents <= 10000);
    }
    assert_eq!(products[0].name, "Contoso Catnip's Friend");
    assert_eq!(products[0].price_cents, 999);
    assert_eq!(products[0].image, "/catnip.jpg");
    assert_eq!(products[9].name, "Ahoy Doggy Life Jacket");
}

#[test]
fn test_catalog_passes_the_standard_chain() {
    let chain = vec![RuleModule::PriceCap, RuleModule::DescriptionLength];
    for product in fetch_products(&Settings::new()) {
        let mut state = RulesEngineState::new();
        let id = product.id;
        let accepted = execute_chain(&mut state, &chain, product).unwrap();
        assert_eq!(accepted.id, id);
    }
}

#[test]
fn test_product_info_carries_id() {
    let info = ProductInfo { product_id: 7 };
    assert_eq!(info.product_id, 7);
}
