use vibe_agent::docker::{
    agent_token_from_bytes, escape_single_quotes_str, generate_agent_token, generate_docker_command,
};

#[test]
fn single_quotes_are_escaped() {
    assert_eq!(escape_single_quotes_str("it's"), "it'\\''s");
    assert_eq!(escape_single_quotes_str("plain"), "plain");
    assert_eq!(escape_single_quotes_str("''"), "'\\'''\\''");
    assert_eq!(escape_single_quotes_str(""), "");
}

#[test]
fn docker_command_text() {
    let cmd = generate_docker_command("wss://center.example/v1/agent/ws", "vk_agent_abc");
    let expected = "docker run -d \\\n  --name vibe-agent \\\n  --restart unless-stopped \\\n  -e CENTER_URL='wss://center.example/v1/agent/ws' \\\n  -e AGENT_TOKEN='vk_agent_abc' \\\n  -v /path/to/repos:/app/workspaces \\\n  -v /path/to/config:/app/config \\\n  vibe-agent-daemon:latest";
    assert_eq!(cmd, expected);
}

#[test]
fn docker_command_escapes_injection() {
    let cmd = generate_docker_command("x'; rm -rf / #", "t");
    assert!(cmd.contains("-e CENTER_URL='x'\\''; rm -rf / #' \\\n"));
}

#[test]
fn token_from_zero_bytes() {
    let token = agent_token_from_bytes(&[0u8; 32]);
    assert_eq!(token, format!("vk_agent_{}", "A".repeat(43)));
}

#[test]
fn token_uses_url_safe_alphabet() {
    let token = agent_token_from_bytes(&[0xfb, 0xff]);
    assert_eq!(token, "vk_agent_-_8");
}

#[test]
fn generated_tokens_have_prefix_and_length() {
    let a = generate_agent_token();
    let b = generate_agent_token();
    assert!(a.starts_with("vk_agent_"));
    assert_eq!(a.len(), "vk_agent_".len() + 43);
    assert_ne!(a, b);
}

#[test]
fn generated_tokens_use_only_url_safe_characters() {
    for _ in 0..50 {
        let token = generate_agent_token();
        assert!(token[9..]
            .chars()
            .all(|c| c.is_ascii_alphanumeric() || c == '-' || c == '_'));
        assert!(!token.contains('='));
    }
}
