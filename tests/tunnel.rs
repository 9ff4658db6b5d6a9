use hop_cli::commands::tunnel::{get_id_with_prefix, parse_publish, prefix_of, Prefix, PublishError};

#[test]
fn id_with_known_prefix() {
    assert_eq!(
        get_id_with_prefix(Some("deployment_abc")),
        Some((Prefix::Deployment, "deployment_abc".to_string()))
    );
    assert_eq!(
        get_id_with_prefix(Some("container_x_y")),
        Some((Prefix::Container, "container_x_y".to_string()))
    );
    assert_eq!(get_id_with_prefix(None), None);
}

#[test]
fn prefix_is_the_first_segment() {
    assert_eq!(prefix_of("container"), Some(Prefix::Container));
    assert_eq!(prefix_of("deployments_1"), None);
    assert_eq!(prefix_of("deploy_1"), None);
    assert_eq!(prefix_of(""), None);
}

#[test]
fn publish_single_port() {
    assert_eq!(parse_publish("8080"), Ok((None, 8080, 8080)));
    assert_eq!(parse_publish("+80"), Ok((None, 80, 80)));
    assert_eq!(parse_publish("65535"), Ok((None, 65535, 65535)));
}

#[test]
fn publish_two_ports() {
    assert_eq!(parse_publish("3000:80"), Ok((None, 3000, 80)));
}

#[test]
fn publish_address_and_port() {
    assert_eq!(parse_publish("0.0.0.0:8080"), Ok((Some("0.0.0.0".to_string()), 8080, 8080)));
}

#[test]
fn publish_address_and_two_ports() {
    assert_eq!(
        parse_publish("127.0.0.1:3000:80"),
        Ok((Some("127.0.0.1".to_string()), 3000, 80))
    );
    assert_eq!(parse_publish("::1"), Err(PublishError::InvalidPort));
}

#[test]
fn publish_rejects_bad_input() {
    assert_eq!(parse_publish("a:b:c:d"), Err(PublishError::InvalidFormat));
    assert_eq!(parse_publish("1:2:3:4"), Err(PublishError::InvalidFormat));
    assert_eq!(parse_publish("x"), Err(PublishError::InvalidPort));
    assert_eq!(parse_publish(""), Err(PublishError::InvalidPort));
    assert_eq!(parse_publish("65536"), Err(PublishError::InvalidPort));
    assert_eq!(parse_publish("-1"), Err(PublishError::InvalidPort));
    assert_eq!(parse_publish("+"), Err(PublishError::InvalidPort));
    assert_eq!(parse_publish("1:2:"), Err(PublishError::InvalidPort));
    assert_eq!(parse_publish("10.0.0.1:x"), Err(PublishError::InvalidPort));
}
