use sage_checker::ast::{Ident, ProtocolDecl, ProtocolStep, Span, TypeExpr};
use sage_checker::generator::Generator;
use sage_checker::protocolgen::capitalize;

fn sp() -> Span {
    Span { start: 0, end: 0 }
}

fn id(n: &str) -> Ident {
    Ident { name: n.to_string(), span: sp() }
}

fn step(from: &str, to: &str, msg: &str) -> ProtocolStep {
    ProtocolStep { sender: id(from), receiver: id(to), message_type: TypeExpr::Named(id(msg), vec![]), span: sp() }
}

#[test]
fn capitalize_names() {
    assert_eq!(capitalize("client"), "Client");
    assert_eq!(capitalize("Server"), "Server");
    assert_eq!(capitalize(""), "");
    assert_eq!(capitalize("éclair"), "Éclair");
}

#[test]
fn protocol_state_machine_module() {
    let p = ProtocolDecl {
        is_pub: false,
        name: id("PingPong"),
        steps: vec![step("client", "server", "Ping"), step("server", "client", "Pong")],
        span: sp(),
    };
    let mut g = Generator::new();
    g.generate_protocol(&p);
    let expected = r#"// Protocol: PingPong
mod protocol_ping_pong {
    use super::*;

    #[derive(Debug, Clone, Copy, PartialEq, Eq)]
    pub enum State {
        Initial,
        AfterClientSendsPing_0,
        AfterServerSendsPong_1,
        Done,
    }

    impl Default for State {
        fn default() -> Self {
            Self::Initial
        }
    }

    impl ProtocolStateMachine for State {
        fn state_name(&self) -> &str {
            match self {
                State::Initial => "Initial",
                State::AfterClientSendsPing_0 => "AfterClientSendsPing",
                State::AfterServerSendsPong_1 => "AfterServerSendsPong",
                State::Done => "Done",
            }
        }

        fn can_send(&self, msg_type: &str, from_role: &str) -> bool {
            match (self, msg_type, from_role) {
                (State::Initial, "Ping", "client") => true,
                (State::AfterClientSendsPing_0, "Pong", "server") => true,
                _ => false,
            }
        }

        fn can_receive(&self, msg_type: &str, to_role: &str) -> bool {
            match (self, msg_type, to_role) {
                (State::Initial, "Ping", "server") => true,
                (State::AfterClientSendsPing_0, "Pong", "client") => true,
                _ => false,
            }
        }

        fn transition(&mut self, msg_type: &str) -> Result<(), ProtocolViolation> {
            let next = match (&self, msg_type) {
                (State::Initial, "Ping") => State::AfterClientSendsPing_0,
                (State::AfterClientSendsPing_0, "Pong") => State::Done,
                _ => return Err(ProtocolViolation::UnexpectedMessage {
                    protocol: "PingPong".to_string(),
                    expected: "unknown".to_string(),
                    received: msg_type.to_string(),
                    state: self.state_name().to_string(),
                }),
            };
            *self = next;
            Ok(())
        }

        fn is_terminal(&self) -> bool {
            matches!(self, State::Done)
        }

        fn protocol_name(&self) -> &str {
            "PingPong"
        }

        fn clone_box(&self) -> Box<dyn ProtocolStateMachine> {
            Box::new(*self)
        }
    }
}
"#;
    assert_eq!(g.finish(), expected);
}

#[test]
fn public_protocol_with_one_step() {
    let p = ProtocolDecl { is_pub: true, name: id("Ask"), steps: vec![step("a", "b", "Question")], span: sp() };
    let mut g = Generator::new();
    g.generate_protocol(&p);
    let out = g.finish();
    assert!(out.contains("pub mod protocol_ask {\n"));
    assert!(out.contains("                (State::Initial, \"Question\") => State::Done,\n"));
    assert!(out.contains("        AfterASendsQuestion_0,\n"));
}
