use ans_registry::{
    AnsError, BuyDomain, BuyStep, DomainAccount, Payment, PaymentStatus, Pubkey, RegisterDomain,
    Registry, TransferDomain, UpdateDomain,
};

fn key(byte: u8) -> Pubkey {
    Pubkey { bytes: [byte; 32] }
}

fn name(text: &str) -> String {
    text.to_string()
}

fn with_agenta(owner: Pubkey, now: i64) -> Registry {
    let mut registry = Registry::new();
    let r = registry.register(
        &RegisterDomain { owner },
        name("agenta"),
        name("https://a.example"),
        name("travel"),
        now,
    );
    assert_eq!(r, Ok(()));
    registry
}

fn snapshot(registry: &Registry, of: &str) -> DomainAccount {
    registry.lookup(&name(of)).unwrap().clone()
}

#[test]
fn new_registry_binds_no_name() {
    let registry = Registry::new();
    assert!(registry.lookup(&name("agenta")).is_none());
    assert!(registry.lookup(&String::new()).is_none());
}

#[test]
fn register_then_lookup() {
    let registry = with_agenta(key(1), 1000);
    let domain = registry.lookup(&name("agenta")).unwrap();
    assert_eq!(domain.name, "agenta");
    assert_eq!(domain.owner, key(1));
    assert_eq!(domain.endpoint, "https://a.example");
    assert_eq!(domain.category, "travel");
    assert_eq!(domain.created_at, 1000);
    assert_eq!(domain.expires_at, domain.created_at + 31_536_000);
    assert!(!domain.is_listed);
    assert_eq!(domain.list_price, 0);
    assert!(registry.lookup(&name("agentb")).is_none());
    assert!(registry.lookup(&name("agent")).is_none());
    assert!(registry.lookup(&name("AGENTA")).is_none());
}

#[test]
fn register_the_same_name_twice() {
    let mut registry = with_agenta(key(1), 1000);
    let first = snapshot(&registry, "agenta");
    let r = registry.register(
        &RegisterDomain { owner: key(2) },
        name("agenta"),
        name("https://b.example"),
        name("shopping"),
        5000,
    );
    assert_eq!(r, Err(AnsError::NameAlreadyExists));
    assert_eq!(snapshot(&registry, "agenta"), first);
    let r = registry.register(
        &RegisterDomain { owner: key(1) },
        name("agenta"),
        name("https://a.example"),
        name("travel"),
        1000,
    );
    assert_eq!(r, Err(AnsError::NameAlreadyExists));
    assert_eq!(snapshot(&registry, "agenta"), first);
}

#[test]
fn register_a_bound_name_with_a_long_endpoint() {
    let mut registry = with_agenta(key(1), 1000);
    let first = snapshot(&registry, "agenta");
    let r = registry.register(
        &RegisterDomain { owner: key(2) },
        name("agenta"),
        "e".repeat(257),
        name("shopping"),
        5000,
    );
    assert_eq!(r, Err(AnsError::NameAlreadyExists));
    assert_eq!(snapshot(&registry, "agenta"), first);
}

#[test]
fn register_refuses_bad_input_and_binds_nothing() {
    let mut registry = Registry::new();
    let ctx = RegisterDomain { owner: key(1) };
    let r = registry.register(&ctx, name("ab"), String::new(), String::new(), 0);
    assert_eq!(r, Err(AnsError::InvalidNameLength));
    assert!(registry.lookup(&name("ab")).is_none());
    let r = registry.register(&ctx, "n".repeat(33), String::new(), String::new(), 0);
    assert_eq!(r, Err(AnsError::InvalidNameLength));
    assert!(registry.lookup(&"n".repeat(33)).is_none());
    let r = registry.register(&ctx, name("abc"), "e".repeat(257), String::new(), 0);
    assert_eq!(r, Err(AnsError::EndpointTooLong));
    assert!(registry.lookup(&name("abc")).is_none());
    let r = registry.register(&ctx, name("abc"), "e".repeat(256), String::new(), 0);
    assert_eq!(r, Ok(()));
    assert_eq!(registry.lookup(&name("abc")).unwrap().endpoint, "e".repeat(256));
}

#[test]
fn names_are_bound_independently() {
    let mut registry = with_agenta(key(1), 1000);
    let r = registry.register(
        &RegisterDomain { owner: key(2) },
        name("agentb"),
        name("https://b.example"),
        name("shopping"),
        2000,
    );
    assert_eq!(r, Ok(()));
    let a = snapshot(&registry, "agenta");
    let b = snapshot(&registry, "agentb");
    assert_eq!(a.owner, key(1));
    assert_eq!(b.owner, key(2));
    assert_eq!(b.expires_at, 31_538_000);

    assert_eq!(registry.list_for_sale(&name("agentb"), &UpdateDomain { owner: key(2) }, 7), Ok(()));
    assert_eq!(snapshot(&registry, "agenta"), a);
    assert_eq!(
        snapshot(&registry, "agentb"),
        DomainAccount { is_listed: true, list_price: 7, ..b.clone() }
    );

    let r = registry.transfer(
        &name("agenta"),
        &TransferDomain { owner: key(1), new_owner: key(3) },
    );
    assert_eq!(r, Ok(()));
    assert_eq!(snapshot(&registry, "agenta"), DomainAccount { owner: key(3), ..a });
    assert_eq!(
        snapshot(&registry, "agentb"),
        DomainAccount { is_listed: true, list_price: 7, ..b }
    );
}

#[test]
fn many_names() {
    let mut registry = Registry::new();
    for i in 0..50u8 {
        let r = registry.register(
            &RegisterDomain { owner: key(i) },
            format!("agent{}", i),
            format!("https://{}.example", i),
            name("bulk"),
            i as i64,
        );
        assert_eq!(r, Ok(()));
    }
    for i in 0..50u8 {
        let domain = registry.lookup(&format!("agent{}", i)).unwrap();
        assert_eq!(domain.owner, key(i));
        assert_eq!(domain.endpoint, format!("https://{}.example", i));
        assert_eq!(domain.expires_at, i as i64 + 31_536_000);
    }
    assert!(registry.lookup(&name("agent50")).is_none());
    let r = registry.renew(&name("agent49"), &UpdateDomain { owner: key(49) }, 0);
    assert_eq!(r, Ok(()));
    assert_eq!(registry.lookup(&name("agent49")).unwrap().expires_at, 49 + 2 * 31_536_000);
    assert_eq!(registry.lookup(&name("agent48")).unwrap().expires_at, 48 + 31_536_000);
}

#[test]
fn operations_on_an_unbound_name_find_nothing() {
    let mut registry = with_agenta(key(1), 1000);
    let before = snapshot(&registry, "agenta");
    let missing = name("agentb");
    let owner = UpdateDomain { owner: key(1) };
    assert_eq!(
        registry.transfer(&missing, &TransferDomain { owner: key(1), new_owner: key(2) }),
        Err(AnsError::NotFound)
    );
    assert_eq!(
        registry.update_endpoint(&missing, &owner, name("x")),
        Err(AnsError::NotFound)
    );
    assert_eq!(registry.update_endpoint(&missing, &owner, "e".repeat(257)), Err(AnsError::NotFound));
    assert_eq!(registry.list_for_sale(&missing, &owner, 500), Err(AnsError::NotFound));
    assert_eq!(registry.list_for_sale(&missing, &owner, 0), Err(AnsError::NotFound));
    assert_eq!(registry.unlist(&missing, &owner), Err(AnsError::NotFound));
    assert_eq!(registry.renew(&missing, &owner, 2000), Err(AnsError::NotFound));
    let buy = BuyDomain { buyer: key(2), seller: key(1) };
    assert_eq!(
        registry.buy(&missing, &buy, 2000, PaymentStatus::Pending),
        Err(AnsError::NotFound)
    );
    assert_eq!(registry.buy(&missing, &buy, 2000, PaymentStatus::Failed), Err(AnsError::NotFound));
    assert!(registry.lookup(&missing).is_none());
    assert_eq!(snapshot(&registry, "agenta"), before);
}

#[test]
fn transfer_in_the_registry() {
    let mut registry = with_agenta(key(1), 1000);
    let agenta = name("agenta");
    assert_eq!(registry.list_for_sale(&agenta, &UpdateDomain { owner: key(1) }, 500), Ok(()));
    let before = snapshot(&registry, "agenta");
    let r = registry.transfer(&agenta, &TransferDomain { owner: key(2), new_owner: key(2) });
    assert_eq!(r, Err(AnsError::Unauthorized));
    assert_eq!(snapshot(&registry, "agenta"), before);
    let r = registry.transfer(&agenta, &TransferDomain { owner: key(1), new_owner: key(2) });
    assert_eq!(r, Ok(()));
    assert_eq!(
        snapshot(&registry, "agenta"),
        DomainAccount { owner: key(2), is_listed: false, list_price: 0, ..before }
    );
    let r = registry.transfer(&agenta, &TransferDomain { owner: key(1), new_owner: key(1) });
    assert_eq!(r, Err(AnsError::Unauthorized));
}

#[test]
fn update_endpoint_in_the_registry() {
    let mut registry = with_agenta(key(1), 1000);
    let agenta = name("agenta");
    let before = snapshot(&registry, "agenta");
    let r = registry.update_endpoint(&agenta, &UpdateDomain { owner: key(2) }, name("x"));
    assert_eq!(r, Err(AnsError::Unauthorized));
    let r = registry.update_endpoint(&agenta, &UpdateDomain { owner: key(1) }, "e".repeat(257));
    assert_eq!(r, Err(AnsError::EndpointTooLong));
    assert_eq!(snapshot(&registry, "agenta"), before);
    let r = registry.update_endpoint(&agenta, &UpdateDomain { owner: key(1) }, name("x"));
    assert_eq!(r, Ok(()));
    assert_eq!(snapshot(&registry, "agenta"), DomainAccount { endpoint: name("x"), ..before });
}

#[test]
fn list_and_unlist_in_the_registry() {
    let mut registry = with_agenta(key(1), 1000);
    let agenta = name("agenta");
    let before = snapshot(&registry, "agenta");
    assert_eq!(
        registry.list_for_sale(&agenta, &UpdateDomain { owner: key(2) }, 500),
        Err(AnsError::Unauthorized)
    );
    assert_eq!(
        registry.list_for_sale(&agenta, &UpdateDomain { owner: key(1) }, 0),
        Err(AnsError::InvalidPrice)
    );
    assert_eq!(snapshot(&registry, "agenta"), before);
    assert_eq!(registry.list_for_sale(&agenta, &UpdateDomain { owner: key(1) }, 500), Ok(()));
    assert_eq!(
        snapshot(&registry, "agenta"),
        DomainAccount { is_listed: true, list_price: 500, ..before.clone() }
    );
    assert_eq!(
        registry.unlist(&agenta, &UpdateDomain { owner: key(2) }),
        Err(AnsError::Unauthorized)
    );
    assert!(snapshot(&registry, "agenta").is_listed);
    assert_eq!(registry.unlist(&agenta, &UpdateDomain { owner: key(1) }), Ok(()));
    assert_eq!(snapshot(&registry, "agenta"), before);
    assert_eq!(registry.unlist(&agenta, &UpdateDomain { owner: key(1) }), Ok(()));
    assert_eq!(snapshot(&registry, "agenta"), before);
}

#[test]
fn renew_in_the_registry() {
    let mut registry = with_agenta(key(1), 1000);
    let agenta = name("agenta");
    assert_eq!(
        registry.renew(&agenta, &UpdateDomain { owner: key(2) }, 2000),
        Err(AnsError::Unauthorized)
    );
    assert_eq!(snapshot(&registry, "agenta").expires_at, 31_537_000);
    assert_eq!(registry.renew(&agenta, &UpdateDomain { owner: key(1) }, 2000), Ok(()));
    assert_eq!(snapshot(&registry, "agenta").expires_at, 63_073_000);
    assert_eq!(registry.renew(&agenta, &UpdateDomain { owner: key(1) }, 2000), Ok(()));
    assert_eq!(snapshot(&registry, "agenta").expires_at, 94_609_000);
    assert_eq!(registry.renew(&agenta, &UpdateDomain { owner: key(1) }, 200_000_000), Ok(()));
    assert_eq!(snapshot(&registry, "agenta").expires_at, 231_536_000);
}

#[test]
fn buy_in_the_registry() {
    let mut registry = with_agenta(key(1), 1000);
    let agenta = name("agenta");
    let buy = BuyDomain { buyer: key(2), seller: key(1) };
    assert_eq!(
        registry.buy(&agenta, &buy, 2000, PaymentStatus::Pending),
        Err(AnsError::NotForSale)
    );
    assert_eq!(registry.list_for_sale(&agenta, &UpdateDomain { owner: key(1) }, 500), Ok(()));
    let before = snapshot(&registry, "agenta");
    assert_eq!(
        registry.buy(&agenta, &BuyDomain { buyer: key(2), seller: key(2) }, 2000, PaymentStatus::Pending),
        Err(AnsError::WrongSeller)
    );
    assert_eq!(
        registry.buy(&agenta, &buy, 31_537_000, PaymentStatus::Pending),
        Err(AnsError::DomainExpired)
    );
    assert_eq!(
        registry.buy(&agenta, &buy, 2000, PaymentStatus::Failed),
        Err(AnsError::PaymentFailed)
    );
    assert_eq!(snapshot(&registry, "agenta"), before);
    let due = Payment { from: key(2), to: key(1), amount: 500 };
    assert_eq!(registry.buy(&agenta, &buy, 2000, PaymentStatus::Pending), Ok(BuyStep::Pay(due)));
    assert_eq!(snapshot(&registry, "agenta"), before);
    assert_eq!(
        registry.buy(&agenta, &buy, 2000, PaymentStatus::Settled(due)),
        Ok(BuyStep::Done)
    );
    assert_eq!(
        snapshot(&registry, "agenta"),
        DomainAccount { owner: key(2), is_listed: false, list_price: 0, ..before }
    );
}
