use doggy_bag::date_time_retriever::dos_date_time_retriever_adapter::DosDateTimeRetrieverAdapter;
use doggy_bag::date_time_retriever::fake_time_retriever::FakeTimeRetriever;
use doggy_bag::date_time_retriever::{DosDateTimeRetriever, SystemTimeRetriever};

struct FakeMidnightTimeRetriever {}

impl SystemTimeRetriever for FakeMidnightTimeRetriever {
    fn get_hours(&self) -> u16 {
        0
    }

    fn get_minutes(&self) -> u16 {
        0
    }

    fn get_seconds(&self) -> u16 {
        0
    }

    fn get_day(&self) -> u16 {
        0
    }

    fn get_month(&self) -> u16 {
        0
    }

    fn get_year(&self) -> u16 {
        1980
    }
}

struct FakeMorningTimeRetriever {}

impl SystemTimeRetriever for FakeMorningTimeRetriever {
    fn get_hours(&self) -> u16 {
        6
    }

    fn get_minutes(&self) -> u16 {
        11
    }

    fn get_seconds(&self) -> u16 {
        33
    }

    fn get_day(&self) -> u16 {
        10
    }

    fn get_month(&self) -> u16 {
        7
    }

    fn get_year(&self) -> u16 {
        1995
    }
}

struct FakeNightTimeRetriever {}

impl SystemTimeRetriever for FakeNightTimeRetriever {
    fn get_hours(&self) -> u16 {
        22
    }

    fn get_minutes(&self) -> u16 {
        57
    }

    fn get_seconds(&self) -> u16 {
        48
    }

    fn get_day(&self) -> u16 {
        28
    }

    fn get_month(&self) -> u16 {
        1
    }

    fn get_year(&self) -> u16 {
        2095
    }
}

#[test]
fn dos_date_time_retriever_adapter_current_dos_time_at_midnight() {
    let fake_system_time_retriever = Box::new(FakeMidnightTimeRetriever {});

    let dos_date_time_retriever = DosDateTimeRetrieverAdapter {
        date_time_retriever: fake_system_time_retriever,
    };

    let dos_time = dos_date_time_retriever.get_current_dos_time();

    assert_eq!(0, dos_time);
}

#[test]
fn dos_date_time_retriever_adapter_current_dos_time_at_morning() {
    let fake_system_time_retriever = Box::new(FakeMorningTimeRetriever {});

    let dos_date_time_retriever = DosDateTimeRetrieverAdapter {
        date_time_retriever: fake_system_time_retriever,
    };

    let dos_time = dos_date_time_retriever.get_current_dos_time();

    assert_eq!(0b0011000101110000, dos_time);
}

#[test]
fn dos_date_time_retriever_adapter_current_dos_time_at_night() {
    let fake_system_time_retriever = Box::new(FakeNightTimeRetriever {});

    let dos_date_time_retriever = DosDateTimeRetrieverAdapter {
        date_time_retriever: fake_system_time_retriever,
    };

    let dos_time = dos_date_time_retriever.get_current_dos_time();

    assert_eq!(0b1011011100111000, dos_time);
}

#[test]
fn dos_date_time_retriever_adapter_current_dos_date_at_midnight() {
    let fake_system_time_retriever = Box::new(FakeMidnightTimeRetriever {});

    let dos_date_time_retriever = DosDateTimeRetrieverAdapter {
        date_time_retriever: fake_system_time_retriever,
    };

    let dos_date = dos_date_time_retriever.get_current_dos_date();

    assert_eq!(0, dos_date);
}

#[test]
fn dos_date_time_retriever_adapter_current_dos_date_at_morning() {
    let fake_system_time_retriever = Box::new(FakeMorningTimeRetriever {});

    let dos_date_time_retriever = DosDateTimeRetrieverAdapter {
        date_time_retriever: fake_system_time_retriever,
    };

    let dos_date = dos_date_time_retriever.get_current_dos_date();

    assert_eq!(0b0001111011101010, dos_date);
}

#[test]
fn dos_date_time_retriever_adapter_current_dos_date_at_night() {
    let fake_system_time_retriever = Box::new(FakeNightTimeRetriever {});

    let dos_date_time_retriever = DosDateTimeRetrieverAdapter {
        date_time_retriever: fake_system_time_retriever,
    };

    let dos_date = dos_date_time_retriever.get_current_dos_date();

    assert_eq!(0b1110011000111100, dos_date);
}

#[test]
fn fake_time_retriever_shows_zero_in_every_field() {
    let fake_time_retriever = FakeTimeRetriever {};

    assert_eq!(0, fake_time_retriever.get_hours());
    assert_eq!(0, fake_time_retriever.get_minutes());
    assert_eq!(0, fake_time_retriever.get_seconds());
    assert_eq!(0, fake_time_retriever.get_day());
    assert_eq!(0, fake_time_retriever.get_month());
    assert_eq!(0, fake_time_retriever.get_year());
}

#[test]
fn timestamps_of_the_fake_time_retriever() {
    let dos_date_time_retriever = DosDateTimeRetrieverAdapter {
        date_time_retriever: FakeTimeRetriever {},
    };

    assert_eq!(0, dos_date_time_retriever.get_current_dos_time());
    assert_eq!(0, dos_date_time_retriever.get_current_dos_date());
}

#[test]
fn timestamps_of_a_clock_behind_a_trait_object() {
    let clock: Box<dyn SystemTimeRetriever> = Box::new(FakeNightTimeRetriever {});
    let dos_date_time_retriever = DosDateTimeRetrieverAdapter {
        date_time_retriever: clock,
    };

    assert_eq!(0b1011011100111000, dos_date_time_retriever.get_current_dos_time());
    assert_eq!(0b1110011000111100, dos_date_time_retriever.get_current_dos_date());
}
