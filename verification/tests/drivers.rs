use gpsami::drivers::{Desc, Driver, Error, Port, PortType};
use gpsami::mgapplication::{
    copy_outcome, download_open_failed, download_outcome, download_response, erase_outcome,
    open_failed, really_do_download, really_do_erase, Effect, MgAction,
};
use gpsami::devices::Selection;
use gpsami::Format;

struct FakeDriver {
    opens: bool,
    erase: Option<Error>,
    download: Result<String, Error>,
    opened: u32,
    asked: std::cell::RefCell<Vec<(Format, bool)>>,
}

impl FakeDriver {
    fn new(opens: bool) -> FakeDriver {
        FakeDriver {
            opens,
            erase: None,
            download: Ok("/tmp/track.gpx".to_string()),
            opened: 0,
            asked: std::cell::RefCell::new(vec![]),
        }
    }
}

impl Driver for FakeDriver {
    fn open(&mut self) -> bool {
        self.opened += 1;
        self.opens
    }

    fn close(&mut self) -> bool {
        true
    }

    fn download(&self, format: Format, erase: bool) -> Result<String, Error> {
        self.asked.borrow_mut().push((format, erase));
        self.download.clone()
    }

    fn erase(&self) -> Result<(), Error> {
        match &self.erase {
            Some(e) => Err(e.clone()),
            None => Ok(()),
        }
    }
}

fn some_device() -> Selection {
    Selection {
        model: "m241".to_string(),
        port: Port {
            id: "ttyUSB0".to_string(),
            label: "USB".to_string(),
            path: "/dev/ttyUSB0".to_string(),
        },
    }
}

#[test]
fn error_texts() {
    assert_eq!(Error::Success.to_string(), "Success");
    assert_eq!(Error::Unsupported.to_string(), "Unsupported");
    assert_eq!(Error::NoDriver.to_string(), "No driver");
    assert_eq!(Error::Cancelled.to_string(), "Cancelled");
    assert_eq!(Error::WrongArg.to_string(), "WrongArg");
    assert_eq!(Error::Failed("open failed".to_string()).to_string(), "open failed");
    assert_eq!(Error::IOError("disk full".to_string()).to_string(), "disk full");
}

#[test]
fn only_success_and_cancelled_are_silent() {
    assert!(Error::Success.is_silent());
    assert!(Error::Cancelled.is_silent());
    assert!(!Error::Unsupported.is_silent());
    assert!(!Error::NoDriver.is_silent());
    assert!(!Error::WrongArg.is_silent());
    assert!(!Error::Failed("".to_string()).is_silent());
    assert!(!Error::IOError("".to_string()).is_silent());
}

#[test]
fn values_are_copied_whole() {
    let p = Port { id: "a".to_string(), label: "b".to_string(), path: "c".to_string() };
    assert_eq!(p.clone(), p);
    let d = Desc {
        id: "m".to_string(),
        label: "Model".to_string(),
        ports: vec![PortType::UsbSerial, PortType::RfComm],
    };
    assert_eq!(d.clone(), d);
    let e = Error::Failed("why".to_string());
    assert_eq!(e.clone(), e);
    assert_eq!(some_device().clone(), some_device());
}

#[test]
fn erase_outcomes() {
    assert_eq!(erase_outcome(Ok(())), MgAction::DoneErase(Error::Success));
    assert_eq!(erase_outcome(Err(Error::Unsupported)), MgAction::DoneErase(Error::Unsupported));
    assert_eq!(
        erase_outcome(Err(Error::Failed("busy".to_string()))),
        MgAction::DoneErase(Error::Failed("busy".to_string()))
    );
    assert_eq!(open_failed(), MgAction::DoneErase(Error::Failed("open failed".to_string())));
}

#[test]
fn download_outcomes() {
    assert_eq!(download_outcome(Ok("/tmp/t".to_string())), Ok("/tmp/t".to_string()));
    assert_eq!(
        download_outcome(Err(Error::WrongArg)),
        Err(MgAction::DoneDownload(Error::WrongArg))
    );
    assert_eq!(
        download_open_failed(),
        MgAction::DoneDownload(Error::Failed("open failed".to_string()))
    );
    assert_eq!(copy_outcome(None), MgAction::DoneDownload(Error::Success));
    assert_eq!(
        copy_outcome(Some("disk full".to_string())),
        MgAction::DoneDownload(Error::IOError("disk full".to_string()))
    );
}

#[test]
fn download_responses() {
    assert_eq!(
        download_response(some_device(), true, Some("out.gpx".to_string())),
        Effect::SpawnDownload { device: some_device(), output_file: "out.gpx".to_string() }
    );
    assert_eq!(
        download_response(some_device(), true, None),
        Effect::Post(MgAction::DoneDownload(Error::Cancelled))
    );
    assert_eq!(
        download_response(some_device(), false, Some("out.gpx".to_string())),
        Effect::Post(MgAction::DoneDownload(Error::Cancelled))
    );
    assert_eq!(
        download_response(some_device(), false, None),
        Effect::Post(MgAction::DoneDownload(Error::Cancelled))
    );
}

#[test]
fn erase_worker_reports_what_the_device_says() {
    let mut ok = FakeDriver::new(true);
    assert_eq!(really_do_erase(&mut ok), MgAction::DoneErase(Error::Success));
    assert_eq!(ok.opened, 1);

    let mut failing = FakeDriver::new(true);
    failing.erase = Some(Error::Unsupported);
    assert_eq!(really_do_erase(&mut failing), MgAction::DoneErase(Error::Unsupported));

    let mut shut = FakeDriver::new(false);
    assert_eq!(
        really_do_erase(&mut shut),
        MgAction::DoneErase(Error::Failed("open failed".to_string()))
    );
    assert_eq!(shut.opened, 1);
}

#[test]
fn download_worker_reports_what_the_device_says() {
    let mut ok = FakeDriver::new(true);
    assert_eq!(really_do_download(&mut ok), Ok("/tmp/track.gpx".to_string()));
    assert_eq!(*ok.asked.borrow(), vec![(Format::Gpx, false)]);

    let mut failing = FakeDriver::new(true);
    failing.download = Err(Error::Failed("no tracks".to_string()));
    assert_eq!(
        really_do_download(&mut failing),
        Err(MgAction::DoneDownload(Error::Failed("no tracks".to_string())))
    );

    let mut shut = FakeDriver::new(false);
    assert_eq!(
        really_do_download(&mut shut),
        Err(MgAction::DoneDownload(Error::Failed("open failed".to_string())))
    );
    assert_eq!(shut.opened, 1);
    assert!(shut.asked.borrow().is_empty());
}
