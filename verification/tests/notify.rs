use servant_macro::compile::{compile, CompileError};
use servant_macro::generate::Artifacts;
use servant_macro::interface::{InterfaceError, Kind};
use servant_macro::notify_interface;
use servant_macro::render::Sides;
use servant_macro::syntax::{read_declaration, read_fragments};

const BAR_TRAIT: &str = "pub trait Bar {
    fn f1(&self, count: i32);
    fn f2(&self, msg: String);
    fn f3(&mut self, count: usize, f: f64, b: Option<bool>, s: Vec<String>);
}";

const BOTH: Sides = Sides { server: true, client: true };

fn bar(attr: &str, sides: Sides) -> Artifacts {
    let fragments = read_fragments(attr).unwrap();
    let declaration = read_declaration(BAR_TRAIT).unwrap();
    compile(Kind::Notify, &fragments, &declaration, sides).unwrap()
}

// What the generated source declares, written out by hand.

trait Bar {
    fn f1(&self, count: i32);
    fn f2(&self, msg: String);
    fn f3(&mut self, count: usize, f: f64, b: Option<bool>, s: Vec<String>);
}

struct BarEntity;
impl BarEntity {
    const F1_COUNT: i32 = 33;
    const F2_MSG: &'static str = "Message3";
    const F3_COUNT: usize = 345;
    const F3_B: bool = true;
    const F3_F64: f64 = 3.845;
}
impl Bar for BarEntity {
    fn f1(&self, count: i32) {
        assert_eq!(count, Self::F1_COUNT);
    }
    fn f2(&self, msg: String) {
        assert_eq!(msg, Self::F2_MSG);
    }
    fn f3(&mut self, count: usize, f: f64, b: Option<bool>, s: Vec<String>) {
        assert_eq!(count, Self::F3_COUNT);
        assert_eq!(f, Self::F3_F64);
        assert_eq!(b, Some(Self::F3_B));
        assert_eq!(s.len(), 0);
    }
}

#[allow(dead_code)]
struct BarReceiver<S> {
    entity: S,
}
impl<S> BarReceiver<S> {
    fn new(entity: S) -> Self {
        Self { entity }
    }
}

const BAR_REQUEST: &str = "#[derive(serde::Serialize, serde::Deserialize)]
enum BarRequest {
    F1 { count: i32, },
    F2 { msg: String, },
    F3 { count: usize, f: f64, b: Option < bool >, s: Vec < String >, },
}
";

const BAR_INTERFACE: &str = "pub trait Bar {
    fn f1(& self, count: i32, ) -> ();
    fn f2(& self, msg: String, ) -> ();
    fn f3(& mut self, count: usize, f: f64, b: Option < bool >, s: Vec < String >, ) -> ();
}
";

const BAR_RECEIVER: &str = "pub struct BarReceiver<S> {
    entity: S,
}
impl<S> BarReceiver<S> {
    pub fn new(entity: S) -> Self {
        Self { entity }
    }
}
impl<S> servant::NotifyServant for BarReceiver<S>
where
    S: Bar + 'static + Send,
{
    fn serve(&mut self, req: Vec<u8>) -> servant::ServantResult<()> {
        let req: BarRequest = bincode::deserialize(&req)
            .map_err(|e| servant::ServantError::MalformedMessage(e.to_string()))?;
        match req {
            BarRequest::F1 { count, } => self.entity.f1(count, ),
            BarRequest::F2 { msg, } => self.entity.f2(msg, ),
            BarRequest::F3 { count, f, b, s, } => self.entity.f3(count, f, b, s, ),
        }
        Ok(())
    }
}
";

const BAR_NOTIFIER: &str = "#[derive(Clone)]
pub struct BarNotifier(servant::AdapterRegister);

impl BarNotifier {
    pub fn new(ar: servant::AdapterRegister) -> Self {
        Self(ar)
    }
    pub async fn f1(&self, count: i32, ) -> servant::ServantResult<()> {
        let request = BarRequest::F1 { count, };
        let bytes = bincode::serialize(&request)
            .map_err(|e| servant::ServantError::Serialization(e.to_string()))?;
        self.0.send(bytes).await;
        Ok(())
    }
    pub async fn f2(&self, msg: String, ) -> servant::ServantResult<()> {
        let request = BarRequest::F2 { msg, };
        let bytes = bincode::serialize(&request)
            .map_err(|e| servant::ServantError::Serialization(e.to_string()))?;
        self.0.send(bytes).await;
        Ok(())
    }
    pub async fn f3(&self, count: usize, f: f64, b: Option < bool >, s: Vec < String >, ) -> servant::ServantResult<()> {
        let request = BarRequest::F3 { count, f, b, s, };
        let bytes = bincode::serialize(&request)
            .map_err(|e| servant::ServantError::Serialization(e.to_string()))?;
        self.0.send(bytes).await;
        Ok(())
    }
}
";

#[test]
fn test_bar_request() {
    let generated = bar("", BOTH);
    assert_eq!(generated.request_name, "BarRequest");
    assert_eq!(generated.request, BAR_REQUEST);
}

#[test]
fn test_bar_trait() {
    let generated = bar("", BOTH);
    assert_eq!(generated.interface, BAR_INTERFACE);

    fn get(n: BarEntity) -> Box<dyn Bar> {
        Box::new(n)
    }
    let mut r = get(BarEntity);

    assert_eq!(r.f1(BarEntity::F1_COUNT), ());
    assert_eq!(r.f2(BarEntity::F2_MSG.to_owned()), ());
    assert_eq!(
        r.f3(BarEntity::F3_COUNT, BarEntity::F3_F64, Some(BarEntity::F3_B), Vec::new()),
        ()
    );
}

#[test]
fn test_bar_receiver() {
    let generated = bar("", BOTH);
    assert_eq!(generated.binding_name, "BarReceiver");
    assert_eq!(generated.binding, BAR_RECEIVER);

    let he = BarReceiver::new(BarEntity);
    assert_eq!(
        std::mem::size_of_val(&he),
        std::mem::size_of::<BarReceiver::<BarEntity>>()
    );
}

#[test]
fn test_pusher_report_notifier() {
    let generated = bar("", BOTH);
    assert_eq!(generated.stub_name, "BarNotifier");
    assert_eq!(generated.stub, BAR_NOTIFIER);
}

#[test]
fn receiver_dispatches_a_pushed_count_to_f1_and_returns_nothing() {
    let generated = bar("", Sides { server: false, client: true });
    assert!(generated
        .binding
        .contains("    fn serve(&mut self, req: Vec<u8>) -> servant::ServantResult<()> {\n"));
    assert!(generated
        .binding
        .contains("            BarRequest::F1 { count, } => self.entity.f1(count, ),\n"));
    assert!(generated.binding.contains("        }\n        Ok(())\n    }\n"));
    assert!(!generated.binding.contains("bincode::serialize"));
    assert!(!generated.binding.contains("Vec<u8>>"));
}

#[test]
fn receiver_turns_bytes_that_do_not_decode_into_an_error() {
    let generated = bar("", BOTH);
    let decode = "        let req: BarRequest = bincode::deserialize(&req)\n            .map_err(|e| servant::ServantError::MalformedMessage(e.to_string()))?;\n";
    let dispatch = "        match req {\n";
    let decoded_at = generated.binding.find(decode).unwrap();
    let dispatched_at = generated.binding.find(dispatch).unwrap();
    assert!(decoded_at < dispatched_at);
    assert!(generated.binding[..dispatched_at].find("self.entity.").is_none());
    for text in [&generated.binding, &generated.stub] {
        assert!(!text.contains("unwrap"));
        assert!(!text.contains("expect("));
        assert!(!text.contains("panic"));
    }
}

#[test]
fn bar_sides_are_inverted() {
    let client = bar("", Sides { server: false, client: true });
    assert_eq!(client.source(), format!("{}{}{}", BAR_REQUEST, BAR_INTERFACE, BAR_RECEIVER));
    let server = bar("", Sides { server: true, client: false });
    assert_eq!(server.source(), format!("{}{}", BAR_REQUEST, BAR_NOTIFIER));
    let none = bar("", Sides { server: false, client: false });
    assert_eq!(none.source(), "");
}

#[test]
fn bar_takes_configured_names() {
    let generated = bar("notifier = \"Pusher\", receiver = \"Listener\"", BOTH);
    assert_eq!(generated.stub_name, "Pusher");
    assert_eq!(generated.binding_name, "Listener");
    assert_eq!(generated.binding, BAR_RECEIVER.replace("BarReceiver", "Listener"));
    assert_eq!(generated.stub, BAR_NOTIFIER.replace("BarNotifier", "Pusher"));
}

#[test]
fn bar_source_is_rust() {
    let source = notify_interface("", BAR_TRAIT, BOTH).unwrap();
    assert_eq!(source, format!("{}{}{}{}", BAR_REQUEST, BAR_INTERFACE, BAR_RECEIVER, BAR_NOTIFIER));
    let file = syn::parse_file(&source).unwrap();
    assert_eq!(file.items.len(), 7);
}

#[test]
fn notify_with_a_return_value_is_refused() {
    assert_eq!(
        notify_interface("", "trait Bar { fn f1(&self, count: i32) -> bool; }", BOTH),
        Err(CompileError::Interface(InterfaceError::NonUnitReturn { method: "f1".to_string() }))
    );
    assert_eq!(
        notify_interface("proxy = \"P\"", BAR_TRAIT, BOTH).map_err(|e| e.message()),
        Err("option 'proxy' is unknown: name expected 'receiver', 'notifier' only.".to_string())
    );
}
